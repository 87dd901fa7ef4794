//! The Kotlin `ws_rpc` client: a transport that owns the socket, a per-operation client that
//! calls out over it, and a dispatcher attachment for a service the app implements.
//!
//! The transport owns the socket: `{Service}WsSocket` exposes one `onMessage` and one `onClose`
//! slot, set only by the transport's constructor. Every frame the transport does not itself
//! correlate to a pending `request` reaches `{Service}WsFrames` instead, together with the sender
//! to answer over and the transport's own scope, so closing the transport tears every dispatcher
//! reading it down too.
//!
//! A reply operation answers `{Service}{Operation}Result`, the sealed type the HTTP client also
//! publishes, and never throws for a declared error or a fault; a one-way operation answers plainly
//! and throws `{Service}WsRefusal`. A handler answers the same sealed result; anything it throws
//! reaches `onFault` as a `handler-panic` fault. A reply that will not decode is a failed-validation
//! fault. A reply's `error` key carries the declared error verbatim, or
//! `{ "isServiceFault": true, "fault": <fault fields> }` in its place.
use crate::features::kotlin::{
    kotlin_base, kotlin_class_name, kotlin_lookup, kotlin_property_name, kotlin_typename, kt_at, kt_type,
    lookup_kotlin_name, tuples_of, KotlinNames, TupleWrappers, Tuples,
};
use crate::features::service_schema::fault::{fault_fields_typescript_name, fields_name};
use crate::features::service_schema::result::{result_name, result_name_text, tuple_elements};
use crate::field_type::{decimal, decimal_text, is_unit_type, unit_type, FieldDef, FieldDefType, Recorded};
use crate::rename_rule::{camel_case, camel_case_of_variant, lower_first, pascal_case};
use crate::service_def::{
    any_one_way, has_one_way, HeaderBinding, HttpShape, OperationDef, OperationInputs, OperationOutcome, ServiceDef,
};
use crate::text::{join, join_all, views};
use vstd::prelude::*;

verus! {

/// The seam a transport owns: the one place the socket's `onMessage` and `onClose` are set.
pub open spec fn socket_interface_text(named: Seq<char>) -> Seq<char> {
    "/// The seam a `"@
        + named
        + "` `ws_rpc` transport owns: the only place `onMessage` and\n/// `onClose` are ever set, so a real socket satisfies this once and the transport takes\n/// it from there.\ninterface "@
        + named
        + "WsSocket {\n  fun send(text: String)\n  fun close()\n  var onMessage: ((String) -> Unit)?\n  var onClose: (() -> Unit)?\n}"@
}

fn socket_interface(named: &str) -> (text: String)
    ensures
        text@ == socket_interface_text(named@),
{
    let mut text = String::from_str("/// The seam a `");
    text.append(named);
    text.append("` `ws_rpc` transport owns: the only place `onMessage` and\n/// `onClose` are ever set, so a real socket satisfies this once and the transport takes\n/// it from there.\ninterface ");
    text.append(named);
    text.append("WsSocket {\n  fun send(text: String)\n  fun close()\n  var onMessage: ((String) -> Unit)?\n  var onClose: (() -> Unit)?\n}");
    text
}

/// How often a transport pings the far side, and how long it waits for the pong.
pub open spec fn options_class_text(named: Seq<char>) -> Seq<char> {
    "/// How often a `"@
        + named
        + "` `ws_rpc` transport pings the far side, and how long it waits\n/// for the answering pong before closing the connection. `heartbeat = null` turns\n/// probing off entirely.\ndata class "@
        + named
        + "WsOptions(\n  val heartbeat: Heartbeat? = Heartbeat(intervalMs = 30_000, timeoutMs = 10_000),\n) {\n  data class Heartbeat(val intervalMs: Long, val timeoutMs: Long)\n}"@
}

fn options_class(named: &str) -> (text: String)
    ensures
        text@ == options_class_text(named@),
{
    let mut text = String::from_str("/// How often a `");
    text.append(named);
    text.append("` `ws_rpc` transport pings the far side, and how long it waits\n/// for the answering pong before closing the connection. `heartbeat = null` turns\n/// probing off entirely.\ndata class ");
    text.append(named);
    text.append("WsOptions(\n  val heartbeat: Heartbeat? = Heartbeat(intervalMs = 30_000, timeoutMs = 10_000),\n) {\n  data class Heartbeat(val intervalMs: Long, val timeoutMs: Long)\n}");
    text
}

/// The structural record a transport hands an attachment: the uncorrelated frames, the sender,
/// and the transport's own scope.
pub open spec fn frames_class_text(named: Seq<char>) -> Seq<char> {
    "/// The structural seam a `"@
        + named
        + "` `ws_rpc` transport publishes and\n/// `attach"@
        + named
        + "WsDispatcher` takes: every inbound frame the transport does not itself\n/// correlate to a pending `request` (a ping and a pong included nowhere), the raw-text\n/// sender to answer over, and the transport's own scope — so closing the transport\n/// cancels this attachment, and every one it shared the socket with, along with it.\ndata class "@
        + named
        + "WsFrames(\n  val inbound: SharedFlow<String>,\n  val send: (String) -> Unit,\n  val scope: CoroutineScope,\n)"@
}

fn frames_class(named: &str) -> (text: String)
    ensures
        text@ == frames_class_text(named@),
{
    let mut text = String::from_str("/// The structural seam a `");
    text.append(named);
    text.append("` `ws_rpc` transport publishes and\n/// `attach");
    text.append(named);
    text.append("WsDispatcher` takes: every inbound frame the transport does not itself\n/// correlate to a pending `request` (a ping and a pong included nowhere), the raw-text\n/// sender to answer over, and the transport's own scope — so closing the transport\n/// cancels this attachment, and every one it shared the socket with, along with it.\ndata class ");
    text.append(named);
    text.append("WsFrames(\n  val inbound: SharedFlow<String>,\n  val send: (String) -> Unit,\n  val scope: CoroutineScope,\n)");
    text
}

/// What a one-way method throws when it cannot deliver its `notify` frame, named apart from the
/// HTTP client's own refusal so the two coexist in one bundle.
pub open spec fn refusal_class_text(named: Seq<char>) -> Seq<char> {
    "/// What a one-way `"@
        + named
        + "` `ws_rpc` method throws when it cannot deliver its `notify`\n/// frame. A one-way operation declares no error, so there is nothing else to throw.\nclass "@
        + named
        + "WsRefusal(val fault: "@
        + fields_name(named)
        + ") : Exception(fault.detail)"@
}

fn refusal_class(named: &str) -> (text: String)
    ensures
        text@ == refusal_class_text(named@),
{
    let fields = fault_fields_typescript_name(named);
    let mut text = String::from_str("/// What a one-way `");
    text.append(named);
    text.append("` `ws_rpc` method throws when it cannot deliver its `notify`\n/// frame. A one-way operation declares no error, so there is nothing else to throw.\nclass ");
    text.append(named);
    text.append("WsRefusal(val fault: ");
    text.append(fields.as_str());
    text.append(") : Exception(fault.detail)");
    text
}

/// The transport's own doc, its constructor, the fields every other piece reaches for, `init`,
/// and the `frames` seam an attachment dispatches over.
pub open spec fn transport_header_stmt_text(named: Seq<char>) -> Seq<char> {
    "/// A `"@
        + named
        + "` `ws_rpc` transport that owns `socket` under the preferred ownership\n/// shape: correlates a `request` to its reply through a `CompletableDeferred`, answers\n/// an inbound ping with one pong, and runs its own heartbeat on a scope it owns and\n/// hands out through `frames` — closing this transport cancels that scope, and with it\n/// every dispatcher reading `frames`, shared ones included.\n///\n/// `request` runs on its caller's coroutine, `onFrame` on whatever thread the socket\n/// delivers on, and the heartbeat and `close` on the transport's own scope — so every\n/// read and write of `pending`, `nextId` and `pongJob` is guarded by `synchronized(this)`,\n/// a call to the socket or a pending deferred never made while holding it.\nclass "@
        + named
        + "WsTransport(\n  private val socket: "@
        + named
        + "WsSocket,\n  private val options: "@
        + named
        + "WsOptions = "@
        + named
        + "WsOptions(),\n) {\n  private val scope = CoroutineScope(SupervisorJob() + Dispatchers.Default)\n  private val pending = mutableMapOf<String, CompletableDeferred<JsonObject?>>()\n  private val uncorrelated = MutableSharedFlow<String>(extraBufferCapacity = 64)\n  private var nextId = 1\n  private var pongJob: Job? = null\n  private var closed = false\n\n  init {\n    socket.onMessage = { text -> onFrame(text) }\n    socket.onClose = { close() }\n    scheduleHeartbeat()\n  }\n\n  /// The structural seam an attachment dispatches over. Every `"@
        + named
        + "WsTransport`\n  /// exposes the same shape, so an attachment for any service sharing this socket reaches\n  /// it here rather than through a transport type of its own.\n  val frames: "@
        + named
        + "WsFrames\n    get() = "@
        + named
        + "WsFrames(uncorrelated.asSharedFlow(), socket::send, scope)\n\n  "@
}

fn transport_header_stmt(named: &str) -> (text: String)
    ensures
        text@ == transport_header_stmt_text(named@),
{
    let mut text = String::from_str("/// A `");
    text.append(named);
    text.append("` `ws_rpc` transport that owns `socket` under the preferred ownership\n/// shape: correlates a `request` to its reply through a `CompletableDeferred`, answers\n/// an inbound ping with one pong, and runs its own heartbeat on a scope it owns and\n/// hands out through `frames` — closing this transport cancels that scope, and with it\n/// every dispatcher reading `frames`, shared ones included.\n///\n/// `request` runs on its caller's coroutine, `onFrame` on whatever thread the socket\n/// delivers on, and the heartbeat and `close` on the transport's own scope — so every\n/// read and write of `pending`, `nextId` and `pongJob` is guarded by `synchronized(this)`,\n/// a call to the socket or a pending deferred never made while holding it.\nclass ");
    text.append(named);
    text.append("WsTransport(\n  private val socket: ");
    text.append(named);
    text.append("WsSocket,\n  private val options: ");
    text.append(named);
    text.append("WsOptions = ");
    text.append(named);
    text.append("WsOptions(),\n) {\n  private val scope = CoroutineScope(SupervisorJob() + Dispatchers.Default)\n  private val pending = mutableMapOf<String, CompletableDeferred<JsonObject?>>()\n  private val uncorrelated = MutableSharedFlow<String>(extraBufferCapacity = 64)\n  private var nextId = 1\n  private var pongJob: Job? = null\n  private var closed = false\n\n  init {\n    socket.onMessage = { text -> onFrame(text) }\n    socket.onClose = { close() }\n    scheduleHeartbeat()\n  }\n\n  /// The structural seam an attachment dispatches over. Every `");
    text.append(named);
    text.append("WsTransport`\n  /// exposes the same shape, so an attachment for any service sharing this socket reaches\n  /// it here rather than through a transport type of its own.\n  val frames: ");
    text.append(named);
    text.append("WsFrames\n    get() = ");
    text.append(named);
    text.append("WsFrames(uncorrelated.asSharedFlow(), socket::send, scope)\n\n  ");
    text
}

/// The transport's `request`: assigns the next id and registers the pending reply under one
/// lock, then sends the frame and awaits the reply outside it.
pub open spec fn transport_request_stmt_text(named: Seq<char>, has_headers: bool) -> Seq<char> {
    if has_headers {
    "/// Sends `operation` with `payload` and `headers` as a `request` frame and answers\n  /// with the matching `reply` frame's own fields, or `null` once the connection closes\n  /// before one arrives.\n  suspend fun request(operation: String, payload: JsonElement?, headers: JsonObject): JsonObject? {\n    val deferred = CompletableDeferred<JsonObject?>()\n    val id = synchronized(this) {\n      val assigned = (nextId++).toString()\n      pending[assigned] = deferred\n      assigned\n    }\n    send(\n      buildJsonObject {\n        put(\"kind\", \"request\")\n        put(\"id\", id)\n        put(\"service\", \""@
            + named
            + "\")\n        put(\"operation\", operation)\n        put(\"payload\", payload ?: JsonNull)\n        if (headers.isNotEmpty()) put(\"headers\", headers)\n      },\n    )\n    return deferred.await()\n  }\n\n  "@
    } else {
    "/// Sends `operation` with `payload` as a `request` frame and answers with the matching\n  /// `reply` frame's own fields, or `null` once the connection closes before one arrives.\n  suspend fun request(operation: String, payload: JsonElement?): JsonObject? {\n    val deferred = CompletableDeferred<JsonObject?>()\n    val id = synchronized(this) {\n      val assigned = (nextId++).toString()\n      pending[assigned] = deferred\n      assigned\n    }\n    send(\n      buildJsonObject {\n        put(\"kind\", \"request\")\n        put(\"id\", id)\n        put(\"service\", \""@
            + named
            + "\")\n        put(\"operation\", operation)\n        put(\"payload\", payload ?: JsonNull)\n      },\n    )\n    return deferred.await()\n  }\n\n  "@
    }
}

fn transport_request_stmt(named: &str, has_headers: bool) -> (text: String)
    ensures
        text@ == transport_request_stmt_text(named@, has_headers),
{
    if has_headers {
        let mut text = String::from_str("/// Sends `operation` with `payload` and `headers` as a `request` frame and answers\n  /// with the matching `reply` frame's own fields, or `null` once the connection closes\n  /// before one arrives.\n  suspend fun request(operation: String, payload: JsonElement?, headers: JsonObject): JsonObject? {\n    val deferred = CompletableDeferred<JsonObject?>()\n    val id = synchronized(this) {\n      val assigned = (nextId++).toString()\n      pending[assigned] = deferred\n      assigned\n    }\n    send(\n      buildJsonObject {\n        put(\"kind\", \"request\")\n        put(\"id\", id)\n        put(\"service\", \"");
        text.append(named);
        text.append("\")\n        put(\"operation\", operation)\n        put(\"payload\", payload ?: JsonNull)\n        if (headers.isNotEmpty()) put(\"headers\", headers)\n      },\n    )\n    return deferred.await()\n  }\n\n  ");
        text
    } else {
        let mut text = String::from_str("/// Sends `operation` with `payload` as a `request` frame and answers with the matching\n  /// `reply` frame's own fields, or `null` once the connection closes before one arrives.\n  suspend fun request(operation: String, payload: JsonElement?): JsonObject? {\n    val deferred = CompletableDeferred<JsonObject?>()\n    val id = synchronized(this) {\n      val assigned = (nextId++).toString()\n      pending[assigned] = deferred\n      assigned\n    }\n    send(\n      buildJsonObject {\n        put(\"kind\", \"request\")\n        put(\"id\", id)\n        put(\"service\", \"");
        text.append(named);
        text.append("\")\n        put(\"operation\", operation)\n        put(\"payload\", payload ?: JsonNull)\n      },\n    )\n    return deferred.await()\n  }\n\n  ");
        text
    }
}

/// The transport's `notify`, and the `send` every frame goes out through.
pub open spec fn transport_notify_and_send_stmt_text(named: Seq<char>, has_headers: bool) -> Seq<char> {
    if has_headers {
    "/// Sends `operation` with `payload` and `headers` as a `notify` frame. No reply is\n  /// expected.\n  fun notify(operation: String, payload: JsonElement?, headers: JsonObject) {\n    send(\n      buildJsonObject {\n        put(\"kind\", \"notify\")\n        put(\"service\", \""@
            + named
            + "\")\n        put(\"operation\", operation)\n        put(\"payload\", payload ?: JsonNull)\n        if (headers.isNotEmpty()) put(\"headers\", headers)\n      },\n    )\n  }\n\n  private fun send(frame: JsonObject) {\n    socket.send(frame.toString())\n  }\n\n  "@
    } else {
    "/// Sends `operation` with `payload` as a `notify` frame. No reply is expected.\n  fun notify(operation: String, payload: JsonElement?) {\n    send(\n      buildJsonObject {\n        put(\"kind\", \"notify\")\n        put(\"service\", \""@
            + named
            + "\")\n        put(\"operation\", operation)\n        put(\"payload\", payload ?: JsonNull)\n      },\n    )\n  }\n\n  private fun send(frame: JsonObject) {\n    socket.send(frame.toString())\n  }\n\n  "@
    }
}

fn transport_notify_and_send_stmt(named: &str, has_headers: bool) -> (text: String)
    ensures
        text@ == transport_notify_and_send_stmt_text(named@, has_headers),
{
    if has_headers {
        let mut text = String::from_str("/// Sends `operation` with `payload` and `headers` as a `notify` frame. No reply is\n  /// expected.\n  fun notify(operation: String, payload: JsonElement?, headers: JsonObject) {\n    send(\n      buildJsonObject {\n        put(\"kind\", \"notify\")\n        put(\"service\", \"");
        text.append(named);
        text.append("\")\n        put(\"operation\", operation)\n        put(\"payload\", payload ?: JsonNull)\n        if (headers.isNotEmpty()) put(\"headers\", headers)\n      },\n    )\n  }\n\n  private fun send(frame: JsonObject) {\n    socket.send(frame.toString())\n  }\n\n  ");
        text
    } else {
        let mut text = String::from_str("/// Sends `operation` with `payload` as a `notify` frame. No reply is expected.\n  fun notify(operation: String, payload: JsonElement?) {\n    send(\n      buildJsonObject {\n        put(\"kind\", \"notify\")\n        put(\"service\", \"");
        text.append(named);
        text.append("\")\n        put(\"operation\", operation)\n        put(\"payload\", payload ?: JsonNull)\n      },\n    )\n  }\n\n  private fun send(frame: JsonObject) {\n    socket.send(frame.toString())\n  }\n\n  ");
        text
    }
}

/// The transport's `onFrame`: a pong cancels the outstanding watcher, a ping draws one pong,
/// and a reply settles its pending request or, unmatched, reaches `frames.inbound` beside every
/// frame this service does not itself correlate.
pub const TRANSPORT_ON_FRAME: &'static str = "private fun onFrame(text: String) {\n    val frame = try {\n      Json.parseToJsonElement(text).jsonObject\n    } catch (malformed: Throwable) {\n      return\n    }\n    when ((frame[\"kind\"] as? JsonPrimitive)?.contentOrNull) {\n      \"pong\" -> {\n        val watcher = synchronized(this) {\n          val current = pongJob\n          pongJob = null\n          current\n        }\n        watcher?.cancel()\n      }\n      \"ping\" -> send(buildJsonObject { put(\"kind\", \"pong\") })\n      \"reply\" -> {\n        val id = (frame[\"id\"] as? JsonPrimitive)?.contentOrNull\n        val deferred = id?.let { key -> synchronized(this) { pending.remove(key) } }\n        if (deferred != null) deferred.complete(frame) else uncorrelated.tryEmit(text)\n      }\n      else -> uncorrelated.tryEmit(text)\n    }\n  }\n\n  ";

/// The heartbeat: arms the pong watcher under one lock before sending the ping, and cancels
/// whatever watcher the previous round left.
pub open spec fn transport_heartbeat_stmt_text(named: Seq<char>) -> Seq<char> {
    "private fun scheduleHeartbeat() {\n    val heartbeat = options.heartbeat ?: return\n    scope.launch {\n      while (isActive) {\n        delay(heartbeat.intervalMs)\n        val previous = synchronized(this@"@
        + named
        + "WsTransport) {\n          val current = pongJob\n          pongJob = scope.launch {\n            delay(heartbeat.timeoutMs)\n            close()\n          }\n          current\n        }\n        previous?.cancel()\n        send(buildJsonObject { put(\"kind\", \"ping\") })\n      }\n    }\n  }\n\n  "@
}

fn transport_heartbeat_stmt(named: &str) -> (text: String)
    ensures
        text@ == transport_heartbeat_stmt_text(named@),
{
    let mut text = String::from_str("private fun scheduleHeartbeat() {\n    val heartbeat = options.heartbeat ?: return\n    scope.launch {\n      while (isActive) {\n        delay(heartbeat.intervalMs)\n        val previous = synchronized(this@");
    text.append(named);
    text.append("WsTransport) {\n          val current = pongJob\n          pongJob = scope.launch {\n            delay(heartbeat.timeoutMs)\n            close()\n          }\n          current\n        }\n        previous?.cancel()\n        send(buildJsonObject { put(\"kind\", \"ping\") })\n      }\n    }\n  }\n\n  ");
    text
}

/// `close`: closes the socket, settles every pending request with `null`, and cancels the
/// scope `frames` hands out.
pub open spec fn transport_close_stmt_text(named: Seq<char>) -> Seq<char> {
    "/// Closes the socket and settles every pending `request` with `null` — a value, not an\n  /// error — which every waiting `"@
        + named
        + "WsClient` method reads as the transport-failure\n  /// fault, then cancels the scope `frames` hands out, tearing every dispatcher reading it\n  /// down along with it.\n  fun close() {\n    if (closed) return\n    closed = true\n    socket.close()\n    val watcher = synchronized(this) { pongJob }\n    watcher?.cancel()\n    val settled = synchronized(this) {\n      val waiting = pending.values.toList()\n      pending.clear()\n      waiting\n    }\n    for (deferred in settled) deferred.complete(null)\n    scope.cancel()\n  }"@
}

fn transport_close_stmt(named: &str) -> (text: String)
    ensures
        text@ == transport_close_stmt_text(named@),
{
    let mut text = String::from_str("/// Closes the socket and settles every pending `request` with `null` — a value, not an\n  /// error — which every waiting `");
    text.append(named);
    text.append("WsClient` method reads as the transport-failure\n  /// fault, then cancels the scope `frames` hands out, tearing every dispatcher reading it\n  /// down along with it.\n  fun close() {\n    if (closed) return\n    closed = true\n    socket.close()\n    val watcher = synchronized(this) { pongJob }\n    watcher?.cancel()\n    val settled = synchronized(this) {\n      val waiting = pending.values.toList()\n      pending.clear()\n      waiting\n    }\n    for (deferred in settled) deferred.complete(null)\n    scope.cancel()\n  }");
    text
}

/// The transport: correlates a `request` to its reply, answers an inbound ping, runs the
/// heartbeat, and hands every other frame to `frames`.
#[verifier::opaque]
pub open spec fn transport_class_text(named: Seq<char>, has_headers: bool) -> Seq<char> {
    transport_header_stmt_text(named) + transport_request_stmt_text(named, has_headers)
        + transport_notify_and_send_stmt_text(named, has_headers) + TRANSPORT_ON_FRAME@
        + transport_heartbeat_stmt_text(named) + transport_close_stmt_text(named) + "\n}"@
}

fn transport_class(named: &str, has_headers: bool) -> (text: String)
    ensures
        text@ == transport_class_text(named@, has_headers),
{
    reveal(transport_class_text);
    let mut text = transport_header_stmt(named);
    text.append(transport_request_stmt(named, has_headers).as_str());
    text.append(transport_notify_and_send_stmt(named, has_headers).as_str());
    text.append(TRANSPORT_ON_FRAME);
    text.append(transport_heartbeat_stmt(named).as_str());
    text.append(transport_close_stmt(named).as_str());
    text.append("\n}");
    text
}

/// One socket's dispatcher attachment: its scope, and the hook that shares the socket.
pub open spec fn attachment_class_text(named: Seq<char>) -> Seq<char> {
    "/// One socket's `"@
        + named
        + "` dispatcher: the scope it and every service it shared the\n/// socket with run on, and the hook that shares that socket.\nclass "@
        + named
        + "WsAttachment internal constructor(\n  val scope: CoroutineScope,\n  private val send: (String) -> Unit,\n  private val job: Job,\n) {\n  private val shared = mutableListOf<() -> Unit>()\n\n  /// Detaches every service this attachment shared the socket with, then this one.\n  fun detach() {\n    shared.toList().forEach { it() }\n    shared.clear()\n    job.cancel()\n  }\n\n  /// Hands the guarded sender and this attachment's scope to another service's\n  /// dispatcher. The detach it returns also runs when this attachment detaches. Throws\n  /// once this attachment has detached.\n  fun share(attach: (send: (String) -> Unit, scope: CoroutineScope) -> () -> Unit): () -> Unit {\n    check(job.isActive) { \"the socket is closed\" }\n    val detachShared = attach(send, scope)\n    shared += detachShared\n    return detachShared\n  }\n}"@
}

fn attachment_class(named: &str) -> (text: String)
    ensures
        text@ == attachment_class_text(named@),
{
    let mut text = String::from_str("/// One socket's `");
    text.append(named);
    text.append("` dispatcher: the scope it and every service it shared the\n/// socket with run on, and the hook that shares that socket.\nclass ");
    text.append(named);
    text.append("WsAttachment internal constructor(\n  val scope: CoroutineScope,\n  private val send: (String) -> Unit,\n  private val job: Job,\n) {\n  private val shared = mutableListOf<() -> Unit>()\n\n  /// Detaches every service this attachment shared the socket with, then this one.\n  fun detach() {\n    shared.toList().forEach { it() }\n    shared.clear()\n    job.cancel()\n  }\n\n  /// Hands the guarded sender and this attachment's scope to another service's\n  /// dispatcher. The detach it returns also runs when this attachment detaches. Throws\n  /// once this attachment has detached.\n  fun share(attach: (send: (String) -> Unit, scope: CoroutineScope) -> () -> Unit): () -> Unit {\n    check(job.isActive) { \"the socket is closed\" }\n    val detachShared = attach(send, scope)\n    shared += detachShared\n    return detachShared\n  }\n}");
    text
}

/// `attach{Service}WsDispatcher`: dispatches every inbound frame naming this service to its own
/// handler on the transport's scope, so closing the transport ends the attachment too.
#[verifier::opaque]
pub open spec fn attach_dispatcher_fn_text(named: Seq<char>, fn_prefix: Seq<char>, has_headers: bool) -> Seq<char> {
    let headers_arg = if has_headers {
        ", frame[\"headers\"]"@
    } else {
        ""@
    };
    "/// Attaches `handlers` to `frames`, dispatching every inbound `"@
        + named
        + "` frame, decoded\n/// through the generated codec, to its own handler on `frames`' own scope — so closing\n/// the transport this attachment reads from ends it too. A frame naming another\n/// service, or carrying no operation at all, is left on `frames.inbound` for that\n/// service's own attachment; one naming an operation this service does not declare\n/// reaches `onFault` instead. Every frame that carried an id is answered, one-way\n/// operations included, so a caller waiting on a reply is never left hanging.\nfun attach"@
        + named
        + "WsDispatcher(\n  frames: "@
        + named
        + "WsFrames,\n  handlers: "@
        + named
        + "Handlers,\n  onFault: ("@
        + fields_name(named)
        + ") -> Unit,\n): "@
        + named
        + "WsAttachment {\n  val job = frames.scope.launch {\n    frames.inbound.collect { text ->\n      val frame = runCatching { Json.parseToJsonElement(text).jsonObject }.getOrNull() ?: return@collect\n      if ((frame[\"service\"] as? JsonPrimitive)?.contentOrNull != \""@
        + named
        + "\") return@collect\n      val id = (frame[\"id\"] as? JsonPrimitive)?.contentOrNull\n      val operation = (frame[\"operation\"] as? JsonPrimitive)?.contentOrNull ?: return@collect\n      launch {\n        "@
        + fn_prefix
        + "WsDispatch(id, operation, frame[\"payload\"]"@
        + headers_arg
        + ", handlers, frames.send, onFault)\n      }\n    }\n  }\n  return "@
        + named
        + "WsAttachment(frames.scope, frames.send, job)\n}"@
}

fn attach_dispatcher_fn(named: &str, fn_prefix: &str, has_headers: bool) -> (text: String)
    ensures
        text@ == attach_dispatcher_fn_text(named@, fn_prefix@, has_headers),
{
    reveal(attach_dispatcher_fn_text);
    let fields = fault_fields_typescript_name(named);
    let headers_arg = if has_headers {
        ", frame[\"headers\"]"
    } else {
        ""
    };
    let mut text = String::from_str("/// Attaches `handlers` to `frames`, dispatching every inbound `");
    text.append(named);
    text.append("` frame, decoded\n/// through the generated codec, to its own handler on `frames`' own scope — so closing\n/// the transport this attachment reads from ends it too. A frame naming another\n/// service, or carrying no operation at all, is left on `frames.inbound` for that\n/// service's own attachment; one naming an operation this service does not declare\n/// reaches `onFault` instead. Every frame that carried an id is answered, one-way\n/// operations included, so a caller waiting on a reply is never left hanging.\nfun attach");
    text.append(named);
    text.append("WsDispatcher(\n  frames: ");
    text.append(named);
    text.append("WsFrames,\n  handlers: ");
    text.append(named);
    text.append("Handlers,\n  onFault: (");
    text.append(fields.as_str());
    text.append(") -> Unit,\n): ");
    text.append(named);
    text.append("WsAttachment {\n  val job = frames.scope.launch {\n    frames.inbound.collect { text ->\n      val frame = runCatching { Json.parseToJsonElement(text).jsonObject }.getOrNull() ?: return@collect\n      if ((frame[\"service\"] as? JsonPrimitive)?.contentOrNull != \"");
    text.append(named);
    text.append("\") return@collect\n      val id = (frame[\"id\"] as? JsonPrimitive)?.contentOrNull\n      val operation = (frame[\"operation\"] as? JsonPrimitive)?.contentOrNull ?: return@collect\n      launch {\n        ");
    text.append(fn_prefix);
    text.append("WsDispatch(id, operation, frame[\"payload\"]");
    text.append(headers_arg);
    text.append(", handlers, frames.send, onFault)\n      }\n    }\n  }\n  return ");
    text.append(named);
    text.append("WsAttachment(frames.scope, frames.send, job)\n}");
    text
}

/// The reply frame written back over `send`, correlated to the inbound frame's own `id`.
pub open spec fn reply_frame_expr_text(named: Seq<char>, ok: Seq<char>, key: Seq<char>, value_expr: Seq<char>) -> Seq<char> {
    "buildJsonObject { put(\"kind\", \"reply\"); put(\"id\", id); put(\"service\", \""@
        + named
        + "\"); put(\"ok\", "@
        + ok
        + "); put(\""@
        + key
        + "\", "@
        + value_expr
        + ") }.toString()"@
}

fn reply_frame_expr(named: &str, ok: &str, key: &str, value_expr: &str) -> (text: String)
    ensures
        text@ == reply_frame_expr_text(named@, ok@, key@, value_expr@),
{
    let mut text = String::from_str("buildJsonObject { put(\"kind\", \"reply\"); put(\"id\", id); put(\"service\", \"");
    text.append(named);
    text.append("\"); put(\"ok\", ");
    text.append(ok);
    text.append("); put(\"");
    text.append(key);
    text.append("\", ");
    text.append(value_expr);
    text.append(") }.toString()");
    text
}

/// The fault envelope a reply's `error` key carries in place of a declared error.
pub open spec fn fault_envelope_expr_text(named: Seq<char>, fault_expr: Seq<char>) -> Seq<char> {
    "buildJsonObject { put(\"isServiceFault\", true); put(\"fault\", Json.encodeToJsonElement(serializer<"@
        + fields_name(named)
        + ">(), "@
        + fault_expr
        + ")) }"@
}

fn fault_envelope_expr(named: &str, fault_expr: &str) -> (text: String)
    ensures
        text@ == fault_envelope_expr_text(named@, fault_expr@),
{
    let fields = fault_fields_typescript_name(named);
    let mut text = String::from_str("buildJsonObject { put(\"isServiceFault\", true); put(\"fault\", Json.encodeToJsonElement(serializer<");
    text.append(fields.as_str());
    text.append(">(), ");
    text.append(fault_expr);
    text.append(")) }");
    text
}

/// Answers a waiting request with the fault envelope, guarded on `id != null`, which is `null`
/// only for a `notify` frame.
pub open spec fn fault_reply_stmt_text(named: Seq<char>, fault_expr: Seq<char>) -> Seq<char> {
    "        if (id != null) send("@ + reply_frame_expr_text(
        named,
        "false"@,
        "error"@,
        fault_envelope_expr_text(named, fault_expr),
    ) + ")\n"@
}

fn fault_reply_stmt(named: &str, fault_expr: &str) -> (text: String)
    ensures
        text@ == fault_reply_stmt_text(named@, fault_expr@),
{
    let envelope = fault_envelope_expr(named, fault_expr);
    let frame = reply_frame_expr(named, "false", "error", envelope.as_str());
    let mut text = String::from_str("        if (id != null) send(");
    text.append(frame.as_str());
    text.append(")\n");
    text
}

/// The rustdoc of a fault helper: the fault a `{Service}` `ws_rpc` piece answers with, and when.
pub open spec fn fault_doc_text(named: Seq<char>, when: Seq<char>) -> Seq<char> {
    "The fault a `"@ + named + when
}

fn fault_doc(named: &str, when: &str) -> (doc: String)
    ensures
        doc@ == fault_doc_text(named@, when@),
{
    let mut doc = String::from_str("The fault a `");
    doc.append(named);
    doc.append(when);
    doc
}

/// A private helper building one kind of fault from the operation and a detail.
pub open spec fn fault_helper_text(named: Seq<char>, fn_prefix: Seq<char>, suffix: Seq<char>, kind: Seq<char>, doc: Seq<char>) -> Seq<char> {
    "/// "@
        + doc
        + "\nprivate fun "@
        + fn_prefix
        + suffix
        + "(operation: String, detail: String): "@
        + fields_name(named)
        + " = "@
        + fields_name(named)
        + "(\n  detail = detail,\n  kind = "@
        + named
        + "FaultKind."@
        + kind
        + ",\n  operation = operation,\n)"@
}

fn fault_helper(named: &str, fn_prefix: &str, suffix: &str, kind: &str, doc: &str) -> (text: String)
    ensures
        text@ == fault_helper_text(named@, fn_prefix@, suffix@, kind@, doc@),
{
    let fields = fault_fields_typescript_name(named);
    let mut text = String::from_str("/// ");
    text.append(doc);
    text.append("\nprivate fun ");
    text.append(fn_prefix);
    text.append(suffix);
    text.append("(operation: String, detail: String): ");
    text.append(fields.as_str());
    text.append(" = ");
    text.append(fields.as_str());
    text.append("(\n  detail = detail,\n  kind = ");
    text.append(named);
    text.append("FaultKind.");
    text.append(kind);
    text.append(",\n  operation = operation,\n)");
    text
}

/// When a reply will not decode into the operation's own declared type.
pub open spec fn validation_when() -> Seq<char> {
    "` `ws_rpc` reply answers with when it will not become the operation's own declared type through the generated codec."@
}

/// The failed-validation helper; it takes the `field` a header-shaped failure is about only where
/// a header read or write uses it.
pub open spec fn fault_helper_validation_text(named: Seq<char>, fn_prefix: Seq<char>, needs_field: bool) -> Seq<char> {
    let doc = fault_doc_text(named, validation_when());
    if !needs_field {
        fault_helper_text(named, fn_prefix, "WsFailedValidation"@, "FailedValidation"@, doc)
    } else {
        "/// "@
            + doc
            + "\nprivate fun "@
            + fn_prefix
            + "WsFailedValidation(\n  operation: String,\n  detail: String,\n  field: String? = null,\n): "@
            + fields_name(named)
            + " = "@
            + fields_name(named)
            + "(\n  detail = detail,\n  field = field,\n  kind = "@
            + named
            + "FaultKind.FailedValidation,\n  operation = operation,\n)"@
    }
}

fn fault_helper_validation(named: &str, fn_prefix: &str, needs_field: bool) -> (text: String)
    ensures
        text@ == fault_helper_validation_text(named@, fn_prefix@, needs_field),
{
    let doc = fault_doc(
        named,
        "` `ws_rpc` reply answers with when it will not become the operation's own declared type through the generated codec.",
    );
    if !needs_field {
        return fault_helper(named, fn_prefix, "WsFailedValidation", "FailedValidation", doc.as_str());
    }
    let fields = fault_fields_typescript_name(named);
    let mut text = String::from_str("/// ");
    text.append(doc.as_str());
    text.append("\nprivate fun ");
    text.append(fn_prefix);
    text.append("WsFailedValidation(\n  operation: String,\n  detail: String,\n  field: String? = null,\n): ");
    text.append(fields.as_str());
    text.append(" = ");
    text.append(fields.as_str());
    text.append("(\n  detail = detail,\n  field = field,\n  kind = ");
    text.append(named);
    text.append("FaultKind.FailedValidation,\n  operation = operation,\n)");
    text
}

/// When the transport could not carry a call.
pub open spec fn transport_failure_when() -> Seq<char> {
    "` `ws_rpc` client answers with when the transport could not carry a call: the frame never went out, or the reply never came back."@
}

/// When an inbound frame names an operation the service does not declare.
pub open spec fn unknown_operation_when() -> Seq<char> {
    "` `ws_rpc` attachment answers with when an inbound frame names an operation nothing on this service declares."@
}

/// When a handler raises rather than answering the sealed result.
pub open spec fn handler_panic_when() -> Seq<char> {
    "` `ws_rpc` attachment answers with when a handler raises anything at all rather than answering the sealed result."@
}

/// The helpers every method and every dispatch arm builds its faults with.
pub open spec fn fault_helpers_text(named: Seq<char>, fn_prefix: Seq<char>, needs_field: bool) -> Seq<Seq<char>> {
    seq![
        fault_helper_text(named, fn_prefix, "WsTransportFailure"@, "TransportFailure"@, fault_doc_text(named, transport_failure_when())),
        fault_helper_validation_text(named, fn_prefix, needs_field),
        fault_helper_text(named, fn_prefix, "WsUnknownOperation"@, "UnknownOperation"@, fault_doc_text(named, unknown_operation_when())),
        fault_helper_text(named, fn_prefix, "WsHandlerPanic"@, "HandlerPanic"@, fault_doc_text(named, handler_panic_when())),
    ]
}

fn fault_helpers(named: &str, fn_prefix: &str, needs_field: bool) -> (helpers: Vec<String>)
    ensures
        views(helpers@) == fault_helpers_text(named@, fn_prefix@, needs_field),
{
    let transport = fault_doc(
        named,
        "` `ws_rpc` client answers with when the transport could not carry a call: the frame never went out, or the reply never came back.",
    );
    let unknown = fault_doc(
        named,
        "` `ws_rpc` attachment answers with when an inbound frame names an operation nothing on this service declares.",
    );
    let panic = fault_doc(
        named,
        "` `ws_rpc` attachment answers with when a handler raises anything at all rather than answering the sealed result.",
    );
    let mut helpers: Vec<String> = Vec::new();
    helpers.push(fault_helper(named, fn_prefix, "WsTransportFailure", "TransportFailure", transport.as_str()));
    helpers.push(fault_helper_validation(named, fn_prefix, needs_field));
    helpers.push(fault_helper(named, fn_prefix, "WsUnknownOperation", "UnknownOperation", unknown.as_str()));
    helpers.push(fault_helper(named, fn_prefix, "WsHandlerPanic", "HandlerPanic", panic.as_str()));
    assert(views(helpers@) =~= fault_helpers_text(named@, fn_prefix@, needs_field));
    helpers
}

// ----- The dispatcher: decoding an inbound frame, calling its handler, answering. -----

/// How many declared headers a tuple carries beside its body: one per declared name, as far as
/// the tuple has elements past its first.
pub open spec fn header_count(declared: nat, whole: FieldDef) -> nat {
    let elements = tuple_elements(whole).len();
    if elements <= 1 {
        0
    } else if declared < elements - 1 {
        declared
    } else {
        (elements - 1) as nat
    }
}

fn header_element_count(declared: usize, whole: &FieldDef) -> (count: usize)
    ensures
        count == header_count(declared as nat, *whole),
{
    match &whole.field_type {
        FieldDefType::Tuple(elements) => {
            if elements.len() <= 1 {
                0
            } else if declared < elements.len() - 1 {
                declared
            } else {
                elements.len() - 1
            }
        },
        _ => 0,
    }
}

/// The type a header tuple carries in its body slot: its first element, or the type itself where
/// no header was declared.
pub open spec fn body_type_of(headers: nat, ty: FieldDef) -> FieldDef {
    if headers == 0 || tuple_elements(ty).len() == 0 {
        ty
    } else {
        tuple_elements(ty)[0]
    }
}

fn body_type(headers: usize, ty: &FieldDef) -> (body: &FieldDef)
    ensures
        *body == body_type_of(headers as nat, *ty),
{
    if headers == 0 {
        return ty;
    }
    match &ty.field_type {
        FieldDefType::Tuple(elements) => if elements.len() == 0 {
            ty
        } else {
            &elements[0]
        },
        _ => ty,
    }
}

/// The message's Kotlin type: the type the operation named, or the one the macro declared for an
/// operation that named none, or `Unit`.
pub open spec fn message_type_text(operation: OperationDef, names: KotlinNames, st: Tuples) -> (Seq<char>, Tuples) {
    match operation.inputs {
        OperationInputs::Named(declared) => kt_type(declared, names, st),
        _ => match operation.generated_message {
            Some(ident) => (kotlin_class_name(names, ident@), st),
            None => ("Unit"@, st),
        },
    }
}

pub(crate) fn message_kotlin_typename(operation: &OperationDef, names: &KotlinNames, tuples: &mut TupleWrappers) -> (text: String)
    ensures
        (text@, tuples_of(*final(tuples))) == message_type_text(*operation, *names, tuples_of(*old(tuples))),
{
    match &operation.inputs {
        OperationInputs::Named(declared) => kotlin_typename(declared, names, tuples),
        _ => match &operation.generated_message {
            Some(ident) => match lookup_kotlin_name(names, ident.as_str()) {
                Some(name) => name,
                None => ident.clone(),
            },
            None => String::from_str("Unit"),
        },
    }
}

/// One `put` per declared header, read off `accessor_root`, a `null` optional element omitted.
pub open spec fn header_writes_text(
    whole: FieldDef,
    header_names: Seq<String>,
    prefix: Seq<char>,
    accessor_root: Seq<char>,
    count: nat,
    names: KotlinNames,
    st: Tuples,
) -> (Seq<char>, Tuples)
    decreases count,
{
    if count == 0 {
        (Seq::empty(), st)
    } else {
        let (before, s1) = header_writes_text(
            whole,
            header_names,
            prefix,
            accessor_root,
            (count - 1) as nat,
            names,
            st,
        );
        let i = (count - 1) as nat;
        let element = tuple_elements(whole)[i + 1int];
        let accessor = accessor_root + "."@ + prefix + decimal(i);
        let name = header_names[i as int]@;
        if element.optional {
            let (inner, s2) = kt_at(element, element.array_depth as nat, names, s1);
            (
                before + "              "@ + accessor + "?.let { put(\""@ + name
                    + "\", Json.encodeToJsonElement(serializer<"@ + inner + ">(), it)) }\n"@,
                s2,
            )
        } else {
            let (ty, s2) = kt_type(element, names, s1);
            (
                before + "              put(\""@ + name + "\", Json.encodeToJsonElement(serializer<"@
                    + ty + ">(), "@ + accessor + "))\n"@,
                s2,
            )
        }
    }
}

/// The `replyHeaders` a reply arm writes beside its body, and the body's own encoding.
pub open spec fn reply_parts_text(
    whole: FieldDef,
    header_names: Seq<String>,
    prefix: Seq<char>,
    accessor_root: Seq<char>,
    body_accessor: Seq<char>,
    names: KotlinNames,
    st: Tuples,
) -> ((Seq<char>, Seq<char>), Tuples) {
    let count = header_count(header_names.len(), whole);
    let (body_ty, s1) = kt_type(body_type_of(header_names.len(), whole), names, st);
    let body_expr = "Json.encodeToJsonElement(serializer<"@ + body_ty + ">(), "@ + body_accessor + ")"@;
    let (writes, s2) = header_writes_text(whole, header_names, prefix, accessor_root, count, names, s1);
    (
        (
            "            val replyHeaders = buildJsonObject {\n"@ + writes + "            }\n"@,
            body_expr,
        ),
        s2,
    )
}

#[verifier::spinoff_prover]
#[verifier::rlimit(40)]
fn reply_parts(
    whole: &FieldDef,
    header_names: &Vec<String>,
    prefix: &str,
    accessor_root: &str,
    body_accessor: &str,
    names: &KotlinNames,
    tuples: &mut TupleWrappers,
) -> (parts: (String, String))
    ensures
        ((parts.0@, parts.1@), tuples_of(*final(tuples))) == reply_parts_text(
            *whole,
            header_names@,
            prefix@,
            accessor_root@,
            body_accessor@,
            *names,
            tuples_of(*old(tuples)),
        ),
{
    let count = header_element_count(header_names.len(), whole);
    let body_ty = kotlin_typename(body_type(header_names.len(), whole), names, tuples);
    let mut body_expr = String::from_str("Json.encodeToJsonElement(serializer<");
    body_expr.append(body_ty.as_str());
    body_expr.append(">(), ");
    body_expr.append(body_accessor);
    body_expr.append(")");
    let ghost s1 = tuples_of(*tuples);
    let no_elements: Vec<FieldDef> = Vec::new();
    let elements = match &whole.field_type {
        FieldDefType::Tuple(elements) => elements,
        _ => &no_elements,
    };
    assert(elements@ == tuple_elements(*whole));
    let mut writes = String::new();
    let mut i: usize = 0;
    while i < count
        invariant
            0 <= i <= count,
            count == header_count(header_names@.len(), *whole),
            elements@ == tuple_elements(*whole),
            (writes@, tuples_of(*tuples)) == header_writes_text(
                *whole,
                header_names@,
                prefix@,
                accessor_root@,
                i as nat,
                *names,
                s1,
            ),
        decreases count - i,
    {
        let element = &elements[i + 1];
        let name = header_names[i].as_str();
        let mut accessor = accessor_root.to_owned();
        accessor.append(".");
        accessor.append(prefix);
        accessor.append(decimal_text(i as u64).as_str());
        if element.optional {
            let inner = kotlin_base(element, names, tuples);
            writes.append("              ");
            writes.append(accessor.as_str());
            writes.append("?.let { put(\"");
            writes.append(name);
            writes.append("\", Json.encodeToJsonElement(serializer<");
            writes.append(inner.as_str());
            writes.append(">(), it)) }\n");
        } else {
            let ty = kotlin_typename(element, names, tuples);
            writes.append("              put(\"");
            writes.append(name);
            writes.append("\", Json.encodeToJsonElement(serializer<");
            writes.append(ty.as_str());
            writes.append(">(), ");
            writes.append(accessor.as_str());
            writes.append("))\n");
        }
        i += 1;
    }
    let mut headers = String::from_str("            val replyHeaders = buildJsonObject {\n");
    headers.append(writes.as_str());
    headers.append("            }\n");
    (headers, body_expr)
}

/// The `is {Result}.Ok -> …` arm: one `send` where the operation declared no `header_out`, else a
/// block writing `replyHeaders` beside the body.
#[verifier::opaque]
pub open spec fn ok_arm_text(
    named: Seq<char>,
    result: Seq<char>,
    shape: HttpShape,
    success: FieldDef,
    recorded: Recorded,
    names: KotlinNames,
    st: Tuples,
) -> (Seq<char>, Tuples) {
    if shape.header_out@.len() == 0 {
        let (ok_value, s1) = if unit_type(success, recorded) {
            ("JsonNull"@, st)
        } else {
            let (ty, s) = kt_type(success, names, st);
            ("Json.encodeToJsonElement(serializer<"@ + ty + ">(), answered.value)"@, s)
        };
        (
            "          is "@ + result + ".Ok -> send("@ + reply_frame_expr_text(
                named,
                "true"@,
                "value"@,
                ok_value,
            ) + ")\n"@,
            s1,
        )
    } else {
        let ((headers_stmt, body_expr), s1) = reply_parts_text(
            success,
            shape.header_out@,
            "headerOut"@,
            "answered.value"@,
            "answered.value.value"@,
            names,
            st,
        );
        (
            "          is "@ + result + ".Ok -> {\n"@ + headers_stmt
                + "            send(\n              buildJsonObject {\n                put(\"kind\", \"reply\")\n                put(\"id\", id)\n                put(\"service\", \""@
                + named
                + "\")\n                put(\"ok\", true)\n                put(\"value\", "@
                + body_expr
                + ")\n                if (replyHeaders.isNotEmpty()) put(\"headers\", replyHeaders)\n              }.toString(),\n            )\n          }\n"@,
            s1,
        )
    }
}

fn ok_arm(
    named: &str,
    result: &str,
    shape: &HttpShape,
    success: &FieldDef,
    recorded: &Recorded,
    names: &KotlinNames,
    tuples: &mut TupleWrappers,
) -> (text: String)
    ensures
        (text@, tuples_of(*final(tuples))) == ok_arm_text(
            named@,
            result@,
            *shape,
            *success,
            *recorded,
            *names,
            tuples_of(*old(tuples)),
        ),
{
    reveal(ok_arm_text);
    if shape.header_out.len() == 0 {
        let ok_value = if is_unit_type(success, recorded) {
            String::from_str("JsonNull")
        } else {
            let ty = kotlin_typename(success, names, tuples);
            let mut value = String::from_str("Json.encodeToJsonElement(serializer<");
            value.append(ty.as_str());
            value.append(">(), answered.value)");
            value
        };
        let frame = reply_frame_expr(named, "true", "value", ok_value.as_str());
        let mut text = String::from_str("          is ");
        text.append(result);
        text.append(".Ok -> send(");
        text.append(frame.as_str());
        text.append(")\n");
        return text;
    }
    let (headers_stmt, body_expr) = reply_parts(
        success,
        &shape.header_out,
        "headerOut",
        "answered.value",
        "answered.value.value",
        names,
        tuples,
    );
    let mut text = String::from_str("          is ");
    text.append(result);
    text.append(".Ok -> {\n");
    text.append(headers_stmt.as_str());
    text.append(
        "            send(\n              buildJsonObject {\n                put(\"kind\", \"reply\")\n                put(\"id\", id)\n                put(\"service\", \"",
    );
    text.append(named);
    text.append("\")\n                put(\"ok\", true)\n                put(\"value\", ");
    text.append(body_expr.as_str());
    text.append(
        ")\n                if (replyHeaders.isNotEmpty()) put(\"headers\", replyHeaders)\n              }.toString(),\n            )\n          }\n",
    );
    text
}

/// The declared-error twin of [`ok_arm`].
#[verifier::opaque]
pub open spec fn declared_arm_text(
    named: Seq<char>,
    result: Seq<char>,
    shape: HttpShape,
    error: FieldDef,
    names: KotlinNames,
    st: Tuples,
) -> (Seq<char>, Tuples) {
    if shape.error_header_out@.len() == 0 {
        let (ty, s1) = kt_type(error, names, st);
        (
            "          is "@ + result + ".Declared -> send("@ + reply_frame_expr_text(
                named,
                "false"@,
                "error"@,
                "Json.encodeToJsonElement(serializer<"@ + ty + ">(), answered.error)"@,
            ) + ")\n"@,
            s1,
        )
    } else {
        let ((headers_stmt, body_expr), s1) = reply_parts_text(
            error,
            shape.error_header_out@,
            "errorHeaderOut"@,
            "answered.error"@,
            "answered.error.error"@,
            names,
            st,
        );
        (
            "          is "@ + result + ".Declared -> {\n"@ + headers_stmt
                + "            send(\n              buildJsonObject {\n                put(\"kind\", \"reply\")\n                put(\"id\", id)\n                put(\"service\", \""@
                + named
                + "\")\n                put(\"ok\", false)\n                put(\"error\", "@
                + body_expr
                + ")\n                if (replyHeaders.isNotEmpty()) put(\"headers\", replyHeaders)\n              }.toString(),\n            )\n          }\n"@,
            s1,
        )
    }
}

fn declared_arm(
    named: &str,
    result: &str,
    shape: &HttpShape,
    error: &FieldDef,
    names: &KotlinNames,
    tuples: &mut TupleWrappers,
) -> (text: String)
    ensures
        (text@, tuples_of(*final(tuples))) == declared_arm_text(
            named@,
            result@,
            *shape,
            *error,
            *names,
            tuples_of(*old(tuples)),
        ),
{
    reveal(declared_arm_text);
    if shape.error_header_out.len() == 0 {
        let ty = kotlin_typename(error, names, tuples);
        let mut value = String::from_str("Json.encodeToJsonElement(serializer<");
        value.append(ty.as_str());
        value.append(">(), answered.error)");
        let frame = reply_frame_expr(named, "false", "error", value.as_str());
        let mut text = String::from_str("          is ");
        text.append(result);
        text.append(".Declared -> send(");
        text.append(frame.as_str());
        text.append(")\n");
        return text;
    }
    let (headers_stmt, body_expr) = reply_parts(
        error,
        &shape.error_header_out,
        "errorHeaderOut",
        "answered.error",
        "answered.error.error",
        names,
        tuples,
    );
    let mut text = String::from_str("          is ");
    text.append(result);
    text.append(".Declared -> {\n");
    text.append(headers_stmt.as_str());
    text.append(
        "            send(\n              buildJsonObject {\n                put(\"kind\", \"reply\")\n                put(\"id\", id)\n                put(\"service\", \"",
    );
    text.append(named);
    text.append("\")\n                put(\"ok\", false)\n                put(\"error\", ");
    text.append(body_expr.as_str());
    text.append(
        ")\n                if (replyHeaders.isNotEmpty()) put(\"headers\", replyHeaders)\n              }.toString(),\n            )\n          }\n",
    );
    text
}

/// Reads each `header_in` binding off `incomingHeaders`, refusing a missing required one or an
/// undecodable one the way a malformed payload is refused; answers the statements and the names
/// each binding is read into.
pub open spec fn header_in_reads_text(
    named: Seq<char>,
    fn_prefix: Seq<char>,
    wire: Seq<char>,
    headers: Seq<HeaderBinding>,
    names: KotlinNames,
    st: Tuples,
) -> ((Seq<char>, Seq<Seq<char>>), Tuples)
    decreases headers.len(),
{
    if headers.len() == 0 {
        ((Seq::empty(), Seq::empty()), st)
    } else {
        let ((before, idents), s1) = header_in_reads_text(
            named,
            fn_prefix,
            wire,
            headers.drop_last(),
            names,
            st,
        );
        let header = headers.last();
        let prop = camel_case(header.parameter@);
        let name = header.name@;
        let raw_ident = prop + "Raw"@;
        let fault = fault_reply_stmt_text(named, "fault"@);
        if header.ty.optional {
            let (inner_ty, s2) = kt_at(header.ty, header.ty.array_depth as nat, names, s1);
            (
                (
                    before + "      val "@ + raw_ident + " = incomingHeaders[\""@ + name
                        + "\"]\n      val "@ + prop + " = if ("@ + raw_ident + " == null || "@
                        + raw_ident
                        + " is JsonNull) {\n        null\n      } else {\n        try {\n          Json.decodeFromJsonElement(serializer<"@
                        + inner_ty + ">(), "@ + raw_ident
                        + ")\n        } catch (rejected: Throwable) {\n          val fault = "@
                        + fn_prefix + "WsFailedValidation(\""@ + wire
                        + "\", rejected.toString(), field = \""@ + name
                        + "\")\n          onFault(fault)\n"@ + fault
                        + "          return\n        }\n      }\n"@,
                    idents.push(prop),
                ),
                s2,
            )
        } else {
            let (ty, s2) = kt_type(header.ty, names, s1);
            (
                (
                    before + "      val "@ + raw_ident + " = incomingHeaders[\""@ + name
                        + "\"]\n      if ("@ + raw_ident + " == null) {\n        val fault = "@
                        + fn_prefix + "WsFailedValidation(\""@ + wire
                        + "\", \"a required header was not carried\", field = \""@ + name
                        + "\")\n        onFault(fault)\n"@ + fault + "        return\n      }\n      val "@
                        + prop + " = try {\n        Json.decodeFromJsonElement(serializer<"@ + ty
                        + ">(), "@ + raw_ident
                        + ")\n      } catch (rejected: Throwable) {\n        val fault = "@
                        + fn_prefix + "WsFailedValidation(\""@ + wire
                        + "\", rejected.toString(), field = \""@ + name
                        + "\")\n        onFault(fault)\n"@ + fault + "        return\n      }\n"@,
                    idents.push(prop),
                ),
                s2,
            )
        }
    }
}

#[verifier::spinoff_prover]
#[verifier::rlimit(40)]
fn header_in_read_stmt(
    named: &str,
    fn_prefix: &str,
    wire: &str,
    shape: &HttpShape,
    names: &KotlinNames,
    tuples: &mut TupleWrappers,
) -> (reads: (String, Vec<String>))
    ensures
        ((reads.0@, views(reads.1@)), tuples_of(*final(tuples))) == header_in_reads_text(
            named@,
            fn_prefix@,
            wire@,
            shape.header_in@,
            *names,
            tuples_of(*old(tuples)),
        ),
{
    let ghost start = tuples_of(*tuples);
    let mut stmt = String::new();
    let mut idents: Vec<String> = Vec::new();
    let mut i: usize = 0;
    while i < shape.header_in.len()
        invariant
            0 <= i <= shape.header_in.len(),
            ((stmt@, views(idents@)), tuples_of(*tuples)) == header_in_reads_text(
                named@,
                fn_prefix@,
                wire@,
                shape.header_in@.take(i as int),
                *names,
                start,
            ),
        decreases shape.header_in.len() - i,
    {
        assert(shape.header_in@.take(i + 1).drop_last() =~= shape.header_in@.take(i as int));
        let header = &shape.header_in[i];
        let prop = kotlin_property_name(header.parameter.as_str());
        let name = header.name.as_str();
        let mut raw_ident = prop.clone();
        raw_ident.append("Raw");
        let fault = fault_reply_stmt(named, "fault");
        if header.ty.optional {
            let inner_ty = kotlin_base(&header.ty, names, tuples);
            stmt.append("      val ");
            stmt.append(raw_ident.as_str());
            stmt.append(" = incomingHeaders[\"");
            stmt.append(name);
            stmt.append("\"]\n      val ");
            stmt.append(prop.as_str());
            stmt.append(" = if (");
            stmt.append(raw_ident.as_str());
            stmt.append(" == null || ");
            stmt.append(raw_ident.as_str());
            stmt.append(
                " is JsonNull) {\n        null\n      } else {\n        try {\n          Json.decodeFromJsonElement(serializer<",
            );
            stmt.append(inner_ty.as_str());
            stmt.append(">(), ");
            stmt.append(raw_ident.as_str());
            stmt.append(")\n        } catch (rejected: Throwable) {\n          val fault = ");
            stmt.append(fn_prefix);
            stmt.append("WsFailedValidation(\"");
            stmt.append(wire);
            stmt.append("\", rejected.toString(), field = \"");
            stmt.append(name);
            stmt.append("\")\n          onFault(fault)\n");
            stmt.append(fault.as_str());
            stmt.append("          return\n        }\n      }\n");
        } else {
            let ty = kotlin_typename(&header.ty, names, tuples);
            stmt.append("      val ");
            stmt.append(raw_ident.as_str());
            stmt.append(" = incomingHeaders[\"");
            stmt.append(name);
            stmt.append("\"]\n      if (");
            stmt.append(raw_ident.as_str());
            stmt.append(" == null) {\n        val fault = ");
            stmt.append(fn_prefix);
            stmt.append("WsFailedValidation(\"");
            stmt.append(wire);
            stmt.append("\", \"a required header was not carried\", field = \"");
            stmt.append(name);
            stmt.append("\")\n        onFault(fault)\n");
            stmt.append(fault.as_str());
            stmt.append("        return\n      }\n      val ");
            stmt.append(prop.as_str());
            stmt.append(" = try {\n        Json.decodeFromJsonElement(serializer<");
            stmt.append(ty.as_str());
            stmt.append(">(), ");
            stmt.append(raw_ident.as_str());
            stmt.append(")\n      } catch (rejected: Throwable) {\n        val fault = ");
            stmt.append(fn_prefix);
            stmt.append("WsFailedValidation(\"");
            stmt.append(wire);
            stmt.append("\", rejected.toString(), field = \"");
            stmt.append(name);
            stmt.append("\")\n        onFault(fault)\n");
            stmt.append(fault.as_str());
            stmt.append("        return\n      }\n");
        }
        let ghost before = views(idents@);
        idents.push(prop);
        assert(views(idents@) =~= before.push(idents@.last()@));
        i += 1;
    }
    assert(shape.header_in@.take(shape.header_in.len() as int) =~= shape.header_in@);
    (stmt, idents)
}

/// One arm of the dispatcher's `when`: decode the payload (refusing an undecodable one), read
/// each bound header, call the handler (a throw is a `handler-panic` fault), and answer a frame
/// that carried an id — an acknowledgement for a one-way operation, the handler's sealed result
/// otherwise.
#[verifier::opaque]
pub open spec fn dispatch_arm_text(
    named: Seq<char>,
    fn_prefix: Seq<char>,
    operation: OperationDef,
    recorded: Recorded,
    names: KotlinNames,
    st: Tuples,
) -> (Seq<char>, Tuples) {
    let wire = operation.wire_name@;
    let (req_ty, s1) = message_type_text(operation, names, st);
    let fault = fault_reply_stmt_text(named, "fault"@);
    let ((header_reads, idents), s2) = header_in_reads_text(
        named,
        fn_prefix,
        wire,
        operation.http.header_in@,
        names,
        s1,
    );
    let arm = "    \""@ + wire
        + "\" -> {\n      val decoded = try {\n        Json.decodeFromJsonElement(serializer<"@ + req_ty
        + ">(), payload ?: JsonNull)\n      } catch (rejected: Throwable) {\n        val fault = "@
        + fn_prefix + "WsFailedValidation(\""@ + wire + "\", rejected.toString())\n        onFault(fault)\n"@
        + fault + "        return\n      }\n"@ + header_reads;
    let call_args = join(seq!["decoded"@] + idents, ", "@);
    let call = operation.ts_name@;
    match operation.outcome {
        OperationOutcome::OneWay => (
            arm + "      try {\n        handlers."@ + call + "("@ + call_args
                + ")\n      } catch (unexpected: Throwable) {\n        val fault = "@ + fn_prefix
                + "WsHandlerPanic(\""@ + wire + "\", unexpected.toString())\n        onFault(fault)\n"@
                + fault + "        return\n      }\n      if (id != null) send("@
                + reply_frame_expr_text(named, "true"@, "value"@, "JsonNull"@) + ")\n    }\n"@,
            s2,
        ),
        OperationOutcome::Reply { error, success } => {
            let result = named + pascal_case(operation.ident@) + "Result"@;
            let (ok_line, s3) = ok_arm_text(named, result, operation.http, success, recorded, names, s2);
            let (declared_line, s4) = declared_arm_text(named, result, operation.http, error, names, s3);
            (
                arm + "      val answered = try {\n        handlers."@ + call + "("@ + call_args
                    + ")\n      } catch (unexpected: Throwable) {\n        val fault = "@ + fn_prefix
                    + "WsHandlerPanic(\""@ + wire
                    + "\", unexpected.toString())\n        onFault(fault)\n"@ + fault
                    + "        return\n      }\n      if (id != null) {\n        when (answered) {\n"@
                    + ok_line + declared_line + "          is "@ + result + ".Fault -> send("@
                    + reply_frame_expr_text(
                    named,
                    "false"@,
                    "error"@,
                    fault_envelope_expr_text(named, "answered.fault"@),
                ) + ")\n        }\n      }\n    }\n"@,
                s4,
            )
        },
    }
}

#[verifier::spinoff_prover]
#[verifier::rlimit(40)]
fn dispatch_arm(
    named: &str,
    fn_prefix: &str,
    operation: &OperationDef,
    recorded: &Recorded,
    names: &KotlinNames,
    tuples: &mut TupleWrappers,
) -> (text: String)
    ensures
        (text@, tuples_of(*final(tuples))) == dispatch_arm_text(
            named@,
            fn_prefix@,
            *operation,
            *recorded,
            *names,
            tuples_of(*old(tuples)),
        ),
{
    reveal(dispatch_arm_text);
    let wire = operation.wire_name.as_str();
    let req_ty = message_kotlin_typename(operation, names, tuples);
    let fault = fault_reply_stmt(named, "fault");
    let (header_reads, idents) = header_in_read_stmt(named, fn_prefix, wire, &operation.http, names, tuples);
    let mut arm = String::from_str("    \"");
    arm.append(wire);
    arm.append("\" -> {\n      val decoded = try {\n        Json.decodeFromJsonElement(serializer<");
    arm.append(req_ty.as_str());
    arm.append(">(), payload ?: JsonNull)\n      } catch (rejected: Throwable) {\n        val fault = ");
    arm.append(fn_prefix);
    arm.append("WsFailedValidation(\"");
    arm.append(wire);
    arm.append("\", rejected.toString())\n        onFault(fault)\n");
    arm.append(fault.as_str());
    arm.append("        return\n      }\n");
    arm.append(header_reads.as_str());
    let mut call_arg_list: Vec<String> = Vec::new();
    call_arg_list.push(String::from_str("decoded"));
    let mut i: usize = 0;
    while i < idents.len()
        invariant
            0 <= i <= idents.len(),
            views(call_arg_list@) == seq!["decoded"@] + views(idents@).take(i as int),
        decreases idents.len() - i,
    {
        let ghost before = views(call_arg_list@);
        call_arg_list.push(idents[i].clone());
        assert(views(call_arg_list@) =~= before.push(idents@[i as int]@));
        assert(views(idents@).take(i + 1) =~= views(idents@).take(i as int).push(idents@[i as int]@));
        i += 1;
    }
    assert(views(idents@).take(idents.len() as int) =~= views(idents@));
    let call_args = join_all(&call_arg_list, ", ");
    let call = operation.ts_name.as_str();
    match &operation.outcome {
        OperationOutcome::OneWay => {
            let ack = reply_frame_expr(named, "true", "value", "JsonNull");
            arm.append("      try {\n        handlers.");
            arm.append(call);
            arm.append("(");
            arm.append(call_args.as_str());
            arm.append(")\n      } catch (unexpected: Throwable) {\n        val fault = ");
            arm.append(fn_prefix);
            arm.append("WsHandlerPanic(\"");
            arm.append(wire);
            arm.append("\", unexpected.toString())\n        onFault(fault)\n");
            arm.append(fault.as_str());
            arm.append("        return\n      }\n      if (id != null) send(");
            arm.append(ack.as_str());
            arm.append(")\n    }\n");
            arm
        },
        OperationOutcome::Reply { error, success } => {
            let result = match result_name(named, operation) {
                Some(result) => result,
                None => String::new(),
            };
            let ok_line = ok_arm(named, result.as_str(), &operation.http, success, recorded, names, tuples);
            let declared_line = declared_arm(named, result.as_str(), &operation.http, error, names, tuples);
            let envelope = fault_envelope_expr(named, "answered.fault");
            let fault_frame = reply_frame_expr(named, "false", "error", envelope.as_str());
            arm.append("      val answered = try {\n        handlers.");
            arm.append(call);
            arm.append("(");
            arm.append(call_args.as_str());
            arm.append(")\n      } catch (unexpected: Throwable) {\n        val fault = ");
            arm.append(fn_prefix);
            arm.append("WsHandlerPanic(\"");
            arm.append(wire);
            arm.append("\", unexpected.toString())\n        onFault(fault)\n");
            arm.append(fault.as_str());
            arm.append("        return\n      }\n      if (id != null) {\n        when (answered) {\n");
            arm.append(ok_line.as_str());
            arm.append(declared_line.as_str());
            arm.append("          is ");
            arm.append(result.as_str());
            arm.append(".Fault -> send(");
            arm.append(fault_frame.as_str());
            arm.append(")\n        }\n      }\n    }\n");
            arm
        },
    }
}

/// The dispatcher every arm belongs to: one `when` over the operation, an unknown one answered as
/// an `unknown-operation` fault.
pub open spec fn dispatch_arms_text(
    named: Seq<char>,
    fn_prefix: Seq<char>,
    operations: Seq<OperationDef>,
    recorded: Recorded,
    names: KotlinNames,
    st: Tuples,
) -> (Seq<Seq<char>>, Tuples)
    decreases operations.len(),
{
    if operations.len() == 0 {
        (Seq::empty(), st)
    } else {
        let (before, s1) = dispatch_arms_text(named, fn_prefix, operations.drop_last(), recorded, names, st);
        let (last, s2) = dispatch_arm_text(named, fn_prefix, operations.last(), recorded, names, s1);
        (before.push(last), s2)
    }
}

#[verifier::opaque]
pub open spec fn dispatch_fn_text(
    service: ServiceDef,
    named: Seq<char>,
    fn_prefix: Seq<char>,
    has_headers: bool,
    names: KotlinNames,
    st: Tuples,
) -> (Seq<char>, Tuples) {
    let headers_param = if has_headers {
        "  headers: JsonElement?,\n"@
    } else {
        ""@
    };
    let headers_prelude = if has_headers {
        "  val incomingHeaders = (headers as? JsonObject) ?: buildJsonObject {}\n"@
    } else {
        ""@
    };
    let (arms, s1) = dispatch_arms_text(named, fn_prefix, service.operations@, service.recorded, names, st);
    (
        "private suspend fun "@ + fn_prefix
            + "WsDispatch(\n  id: String?,\n  operation: String,\n  payload: JsonElement?,\n"@
            + headers_param + "  handlers: "@ + named
            + "Handlers,\n  send: (String) -> Unit,\n  onFault: ("@ + fields_name(named)
            + ") -> Unit,\n) {\n"@ + headers_prelude + "  when (operation) {\n"@ + join(arms, "\n"@)
            + "\n    else -> {\n      val fault = "@ + fn_prefix
            + "WsUnknownOperation(operation, \"this service answers to no operation by that name\")"@
            + "\n      onFault(fault)\n"@ + fault_reply_stmt_text(named, "fault"@) + "    }\n  }\n}"@,
        s1,
    )
}

#[verifier::spinoff_prover]
#[verifier::rlimit(40)]
fn dispatch_fn(
    service: &ServiceDef,
    named: &str,
    fn_prefix: &str,
    has_headers: bool,
    names: &KotlinNames,
    tuples: &mut TupleWrappers,
) -> (text: String)
    ensures
        (text@, tuples_of(*final(tuples))) == dispatch_fn_text(
            *service,
            named@,
            fn_prefix@,
            has_headers,
            *names,
            tuples_of(*old(tuples)),
        ),
{
    reveal(dispatch_fn_text);
    let fields = fault_fields_typescript_name(named);
    let headers_param = if has_headers {
        "  headers: JsonElement?,\n"
    } else {
        ""
    };
    let headers_prelude = if has_headers {
        "  val incomingHeaders = (headers as? JsonObject) ?: buildJsonObject {}\n"
    } else {
        ""
    };
    let ghost start = tuples_of(*tuples);
    let mut arms: Vec<String> = Vec::new();
    let mut i: usize = 0;
    while i < service.operations.len()
        invariant
            0 <= i <= service.operations.len(),
            (views(arms@), tuples_of(*tuples)) == dispatch_arms_text(
                named@,
                fn_prefix@,
                service.operations@.take(i as int),
                service.recorded,
                *names,
                start,
            ),
        decreases service.operations.len() - i,
    {
        assert(service.operations@.take(i + 1).drop_last() =~= service.operations@.take(i as int));
        let arm = dispatch_arm(named, fn_prefix, &service.operations[i], &service.recorded, names, tuples);
        let ghost before = views(arms@);
        arms.push(arm);
        assert(views(arms@) =~= before.push(arms@.last()@));
        i += 1;
    }
    assert(service.operations@.take(service.operations.len() as int) =~= service.operations@);
    let unknown_reply = fault_reply_stmt(named, "fault");
    let mut text = String::from_str("private suspend fun ");
    text.append(fn_prefix);
    text.append("WsDispatch(\n  id: String?,\n  operation: String,\n  payload: JsonElement?,\n");
    text.append(headers_param);
    text.append("  handlers: ");
    text.append(named);
    text.append("Handlers,\n  send: (String) -> Unit,\n  onFault: (");
    text.append(fields.as_str());
    text.append(") -> Unit,\n) {\n");
    text.append(headers_prelude);
    text.append("  when (operation) {\n");
    text.append(join_all(&arms, "\n").as_str());
    text.append("\n    else -> {\n      val fault = ");
    text.append(fn_prefix);
    text.append("WsUnknownOperation(operation, \"this service answers to no operation by that name\")");
    text.append("\n      onFault(fault)\n");
    text.append(unknown_reply.as_str());
    text.append("    }\n  }\n}");
    text
}

// ----- The client: one method per operation, calling out over the transport. -----

/// One parameter per `header_in` binding, each `name: Type`.
pub open spec fn binding_params_text(headers: Seq<HeaderBinding>, names: KotlinNames, st: Tuples) -> (
    Seq<Seq<char>>,
    Tuples,
)
    decreases headers.len(),
{
    if headers.len() == 0 {
        (Seq::empty(), st)
    } else {
        let (before, s1) = binding_params_text(headers.drop_last(), names, st);
        let header = headers.last();
        let (ty, s2) = kt_type(header.ty, names, s1);
        (before.push(camel_case(header.parameter@) + ": "@ + ty), s2)
    }
}

/// `req` plus one parameter per `header_in` binding, joined by `, `.
pub open spec fn method_params_text(shape: HttpShape, req_ty: Seq<char>, names: KotlinNames, st: Tuples) -> (
    Seq<char>,
    Tuples,
) {
    let (bound, s1) = binding_params_text(shape.header_in@, names, st);
    (join(seq!["req: "@ + req_ty] + bound, ", "@), s1)
}

fn client_method_params(shape: &HttpShape, req_ty: &str, names: &KotlinNames, tuples: &mut TupleWrappers) -> (text: String)
    ensures
        (text@, tuples_of(*final(tuples))) == method_params_text(*shape, req_ty@, *names, tuples_of(*old(tuples))),
{
    let ghost start = tuples_of(*tuples);
    let mut first = String::from_str("req: ");
    first.append(req_ty);
    let mut params: Vec<String> = Vec::new();
    params.push(first);
    let ghost head = seq!["req: "@ + req_ty@];
    assert(views(params@) =~= head);
    let mut i: usize = 0;
    while i < shape.header_in.len()
        invariant
            0 <= i <= shape.header_in.len(),
            ({
                let (bound, after) = binding_params_text(shape.header_in@.take(i as int), *names, start);
                views(params@) == head + bound && tuples_of(*tuples) == after
            }),
        decreases shape.header_in.len() - i,
    {
        assert(shape.header_in@.take(i + 1).drop_last() =~= shape.header_in@.take(i as int));
        let header = &shape.header_in[i];
        let ty = kotlin_typename(&header.ty, names, tuples);
        let mut param = kotlin_property_name(header.parameter.as_str());
        param.append(": ");
        param.append(ty.as_str());
        let ghost before = views(params@);
        params.push(param);
        assert(views(params@) =~= before.push(param@));
        i += 1;
    }
    assert(shape.header_in@.take(shape.header_in.len() as int) =~= shape.header_in@);
    join_all(&params, ", ")
}

/// One JSON-encoded entry per `header_in` binding; an optional one that holds nothing is sent as
/// JSON `null` rather than left out.
pub open spec fn header_puts_text(headers: Seq<HeaderBinding>, names: KotlinNames, st: Tuples) -> (Seq<char>, Tuples)
    decreases headers.len(),
{
    if headers.len() == 0 {
        (Seq::empty(), st)
    } else {
        let (before, s1) = header_puts_text(headers.drop_last(), names, st);
        let header = headers.last();
        let prop = camel_case(header.parameter@);
        let name = header.name@;
        if header.ty.optional {
            let (inner_ty, s2) = kt_at(header.ty, header.ty.array_depth as nat, names, s1);
            (
                before + "      put(\""@ + name + "\", "@ + prop
                    + "?.let { Json.encodeToJsonElement(serializer<"@ + inner_ty
                    + ">(), it) } ?: JsonNull)\n"@,
                s2,
            )
        } else {
            let (ty, s2) = kt_type(header.ty, names, s1);
            (
                before + "      put(\""@ + name + "\", Json.encodeToJsonElement(serializer<"@ + ty
                    + ">(), "@ + prop + "))\n"@,
                s2,
            )
        }
    }
}

pub open spec fn headers_build_text(shape: HttpShape, names: KotlinNames, st: Tuples) -> (Seq<char>, Tuples) {
    if shape.header_in@.len() == 0 {
        ("    val headers = buildJsonObject {}\n"@, st)
    } else {
        let (puts, s1) = header_puts_text(shape.header_in@, names, st);
        ("    val headers = buildJsonObject {\n"@ + puts + "    }\n"@, s1)
    }
}

fn client_headers_build_stmt(shape: &HttpShape, names: &KotlinNames, tuples: &mut TupleWrappers) -> (text: String)
    ensures
        (text@, tuples_of(*final(tuples))) == headers_build_text(*shape, *names, tuples_of(*old(tuples))),
{
    if shape.header_in.len() == 0 {
        return String::from_str("    val headers = buildJsonObject {}\n");
    }
    let ghost start = tuples_of(*tuples);
    let mut puts = String::new();
    let mut i: usize = 0;
    while i < shape.header_in.len()
        invariant
            0 <= i <= shape.header_in.len(),
            (puts@, tuples_of(*tuples)) == header_puts_text(shape.header_in@.take(i as int), *names, start),
        decreases shape.header_in.len() - i,
    {
        assert(shape.header_in@.take(i + 1).drop_last() =~= shape.header_in@.take(i as int));
        let header = &shape.header_in[i];
        let prop = kotlin_property_name(header.parameter.as_str());
        let name = header.name.as_str();
        if header.ty.optional {
            let inner_ty = kotlin_base(&header.ty, names, tuples);
            puts.append("      put(\"");
            puts.append(name);
            puts.append("\", ");
            puts.append(prop.as_str());
            puts.append("?.let { Json.encodeToJsonElement(serializer<");
            puts.append(inner_ty.as_str());
            puts.append(">(), it) } ?: JsonNull)\n");
        } else {
            let ty = kotlin_typename(&header.ty, names, tuples);
            puts.append("      put(\"");
            puts.append(name);
            puts.append("\", Json.encodeToJsonElement(serializer<");
            puts.append(ty.as_str());
            puts.append(">(), ");
            puts.append(prop.as_str());
            puts.append("))\n");
        }
        i += 1;
    }
    assert(shape.header_in@.take(shape.header_in.len() as int) =~= shape.header_in@);
    let mut text = String::from_str("    val headers = buildJsonObject {\n");
    text.append(puts.as_str());
    text.append("    }\n");
    text
}

/// Decodes each declared response header off `headers_var`: an optional one reads a missing
/// header as `null`; a required one, missing or undecodable, answers a fault naming the header.
pub open spec fn header_out_decodes_text(
    result: Seq<char>,
    fn_prefix: Seq<char>,
    wire: Seq<char>,
    headers_var: Seq<char>,
    margin: Seq<char>,
    whole: FieldDef,
    header_names: Seq<String>,
    prefix: Seq<char>,
    count: nat,
    names: KotlinNames,
    st: Tuples,
) -> ((Seq<char>, Seq<Seq<char>>), Tuples)
    decreases count,
{
    if count == 0 {
        ((Seq::empty(), Seq::empty()), st)
    } else {
        let ((before, idents), s1) = header_out_decodes_text(
            result,
            fn_prefix,
            wire,
            headers_var,
            margin,
            whole,
            header_names,
            prefix,
            (count - 1) as nat,
            names,
            st,
        );
        let i = (count - 1) as nat;
        let element = tuple_elements(whole)[i + 1int];
        let prop = prefix + decimal(i);
        let raw_ident = prop + "Raw"@;
        let header_name = header_names[i as int]@;
        if element.optional {
            let (inner_ty, s2) = kt_at(element, element.array_depth as nat, names, s1);
            (
                (
                    before + margin + "val "@ + raw_ident + " = "@ + headers_var + "[\""@ + header_name
                        + "\"]\n"@ + margin + "val "@ + prop + " = "@ + raw_ident + "?.let { raw ->\n"@
                        + margin + "  try {\n"@ + margin + "    Json.decodeFromJsonElement(serializer<"@
                        + inner_ty + ">(), raw)\n"@ + margin + "  } catch (rejected: Throwable) {\n"@
                        + margin + "    return "@ + result + ".Fault(\n"@ + margin + "      "@
                        + fn_prefix + "WsFailedValidation(\""@ + wire
                        + "\", rejected.toString(), field = \""@ + header_name + "\"),\n"@ + margin
                        + "    )\n"@ + margin + "  }\n"@ + margin + "}\n"@,
                    idents.push(prop),
                ),
                s2,
            )
        } else {
            let (ty, s2) = kt_type(element, names, s1);
            (
                (
                    before + margin + "val "@ + raw_ident + " = "@ + headers_var + "[\""@ + header_name
                        + "\"]\n"@ + margin + "  ?: return "@ + result + ".Fault(\n"@ + margin + "    "@
                        + fn_prefix + "WsFailedValidation(\n"@ + margin + "      \""@ + wire + "\",\n"@
                        + margin + "      \"a declared response header was missing\",\n"@ + margin
                        + "      field = \""@ + header_name + "\",\n"@ + margin + "    ),\n"@ + margin
                        + "  )\n"@ + margin + "val "@ + prop + " = try {\n"@ + margin
                        + "  Json.decodeFromJsonElement(serializer<"@ + ty + ">(), "@ + raw_ident
                        + ")\n"@ + margin + "} catch (rejected: Throwable) {\n"@ + margin + "  return "@
                        + result + ".Fault(\n"@ + margin + "    "@ + fn_prefix + "WsFailedValidation(\""@
                        + wire + "\", rejected.toString(), field = \""@ + header_name + "\"),\n"@
                        + margin + "  )\n"@ + margin + "}\n"@,
                    idents.push(prop),
                ),
                s2,
            )
        }
    }
}

#[verifier::spinoff_prover]
#[verifier::rlimit(40)]
fn header_out_decode_stmts(
    result: &str,
    fn_prefix: &str,
    wire: &str,
    headers_var: &str,
    margin: &str,
    whole: &FieldDef,
    header_names: &Vec<String>,
    prefix: &str,
    names: &KotlinNames,
    tuples: &mut TupleWrappers,
) -> (decodes: (String, Vec<String>))
    ensures
        ((decodes.0@, views(decodes.1@)), tuples_of(*final(tuples))) == header_out_decodes_text(
            result@,
            fn_prefix@,
            wire@,
            headers_var@,
            margin@,
            *whole,
            header_names@,
            prefix@,
            header_count(header_names@.len(), *whole),
            *names,
            tuples_of(*old(tuples)),
        ),
{
    let count = header_element_count(header_names.len(), whole);
    let ghost start = tuples_of(*tuples);
    let no_elements: Vec<FieldDef> = Vec::new();
    let elements = match &whole.field_type {
        FieldDefType::Tuple(elements) => elements,
        _ => &no_elements,
    };
    assert(elements@ == tuple_elements(*whole));
    let mut stmt = String::new();
    let mut idents: Vec<String> = Vec::new();
    let mut i: usize = 0;
    while i < count
        invariant
            0 <= i <= count,
            count == header_count(header_names@.len(), *whole),
            elements@ == tuple_elements(*whole),
            ((stmt@, views(idents@)), tuples_of(*tuples)) == header_out_decodes_text(
                result@,
                fn_prefix@,
                wire@,
                headers_var@,
                margin@,
                *whole,
                header_names@,
                prefix@,
                i as nat,
                *names,
                start,
            ),
        decreases count - i,
    {
        let element = &elements[i + 1];
        let header_name = header_names[i].as_str();
        let mut prop = prefix.to_owned();
        prop.append(decimal_text(i as u64).as_str());
        let mut raw_ident = prop.clone();
        raw_ident.append("Raw");
        if element.optional {
            let inner_ty = kotlin_base(element, names, tuples);
            stmt.append(margin);
            stmt.append("val ");
            stmt.append(raw_ident.as_str());
            stmt.append(" = ");
            stmt.append(headers_var);
            stmt.append("[\"");
            stmt.append(header_name);
            stmt.append("\"]\n");
            stmt.append(margin);
            stmt.append("val ");
            stmt.append(prop.as_str());
            stmt.append(" = ");
            stmt.append(raw_ident.as_str());
            stmt.append("?.let { raw ->\n");
            stmt.append(margin);
            stmt.append("  try {\n");
            stmt.append(margin);
            stmt.append("    Json.decodeFromJsonElement(serializer<");
            stmt.append(inner_ty.as_str());
            stmt.append(">(), raw)\n");
            stmt.append(margin);
            stmt.append("  } catch (rejected: Throwable) {\n");
            stmt.append(margin);
            stmt.append("    return ");
            stmt.append(result);
            stmt.append(".Fault(\n");
            stmt.append(margin);
            stmt.append("      ");
            stmt.append(fn_prefix);
            stmt.append("WsFailedValidation(\"");
            stmt.append(wire);
            stmt.append("\", rejected.toString(), field = \"");
            stmt.append(header_name);
            stmt.append("\"),\n");
            stmt.append(margin);
            stmt.append("    )\n");
            stmt.append(margin);
            stmt.append("  }\n");
            stmt.append(margin);
            stmt.append("}\n");
        } else {
            let ty = kotlin_typename(element, names, tuples);
            stmt.append(margin);
            stmt.append("val ");
            stmt.append(raw_ident.as_str());
            stmt.append(" = ");
            stmt.append(headers_var);
            stmt.append("[\"");
            stmt.append(header_name);
            stmt.append("\"]\n");
            stmt.append(margin);
            stmt.append("  ?: return ");
            stmt.append(result);
            stmt.append(".Fault(\n");
            stmt.append(margin);
            stmt.append("    ");
            stmt.append(fn_prefix);
            stmt.append("WsFailedValidation(\n");
            stmt.append(margin);
            stmt.append("      \"");
            stmt.append(wire);
            stmt.append("\",\n");
            stmt.append(margin);
            stmt.append("      \"a declared response header was missing\",\n");
            stmt.append(margin);
            stmt.append("      field = \"");
            stmt.append(header_name);
            stmt.append("\",\n");
            stmt.append(margin);
            stmt.append("    ),\n");
            stmt.append(margin);
            stmt.append("  )\n");
            stmt.append(margin);
            stmt.append("val ");
            stmt.append(prop.as_str());
            stmt.append(" = try {\n");
            stmt.append(margin);
            stmt.append("  Json.decodeFromJsonElement(serializer<");
            stmt.append(ty.as_str());
            stmt.append(">(), ");
            stmt.append(raw_ident.as_str());
            stmt.append(")\n");
            stmt.append(margin);
            stmt.append("} catch (rejected: Throwable) {\n");
            stmt.append(margin);
            stmt.append("  return ");
            stmt.append(result);
            stmt.append(".Fault(\n");
            stmt.append(margin);
            stmt.append("    ");
            stmt.append(fn_prefix);
            stmt.append("WsFailedValidation(\"");
            stmt.append(wire);
            stmt.append("\", rejected.toString(), field = \"");
            stmt.append(header_name);
            stmt.append("\"),\n");
            stmt.append(margin);
            stmt.append("  )\n");
            stmt.append(margin);
            stmt.append("}\n");
        }
        let ghost before = views(idents@);
        idents.push(prop);
        assert(views(idents@) =~= before.push(idents@.last()@));
        i += 1;
    }
    (stmt, idents)
}

/// The reply's success arm: `Ok` outright for a unit success, the decoded value for a plain one,
/// the body and each declared response header read back for one that declared `header_out`.
#[verifier::opaque]
pub open spec fn success_decode_text(
    fn_prefix: Seq<char>,
    wire: Seq<char>,
    result: Seq<char>,
    shape: HttpShape,
    success: FieldDef,
    recorded: Recorded,
    names: KotlinNames,
    st: Tuples,
) -> (Seq<char>, Tuples) {
    if unit_type(success, recorded) {
        ("      return "@ + result + ".Ok\n"@, st)
    } else if shape.header_out@.len() == 0 {
        let (success_ty, s1) = kt_type(success, names, st);
        (
            "      return try {\n        "@ + result + ".Ok(Json.decodeFromJsonElement(serializer<"@
                + success_ty
                + ">(), reply.getValue(\"value\")))\n      } catch (rejected: Throwable) {\n        "@
                + result + ".Fault("@ + fn_prefix + "WsFailedValidation(\""@ + wire
                + "\", rejected.toString()))\n      }\n"@,
            s1,
        )
    } else {
        let (body_ty, s1) = kt_type(body_type_of(shape.header_out@.len(), success), names, st);
        let ((header_stmts, idents), s2) = header_out_decodes_text(
            result,
            fn_prefix,
            wire,
            "headers"@,
            "      "@,
            success,
            shape.header_out@,
            "headerOut"@,
            header_count(shape.header_out@.len(), success),
            names,
            s1,
        );
        (
            "      val headers = (reply[\"headers\"] as? JsonObject) ?: buildJsonObject {}\n      val value = try {\n        Json.decodeFromJsonElement(serializer<"@
                + body_ty
                + ">(), reply.getValue(\"value\"))\n      } catch (rejected: Throwable) {\n        return "@
                + result + ".Fault("@ + fn_prefix + "WsFailedValidation(\""@ + wire
                + "\", rejected.toString()))\n      }\n"@ + header_stmts + "      return "@ + result
                + ".Ok("@ + result + "Value(value, "@ + join(idents, ", "@) + "))\n"@,
            s2,
        )
    }
}

fn success_decode_block(
    fn_prefix: &str,
    wire: &str,
    result: &str,
    shape: &HttpShape,
    success: &FieldDef,
    recorded: &Recorded,
    names: &KotlinNames,
    tuples: &mut TupleWrappers,
) -> (text: String)
    ensures
        (text@, tuples_of(*final(tuples))) == success_decode_text(
            fn_prefix@,
            wire@,
            result@,
            *shape,
            *success,
            *recorded,
            *names,
            tuples_of(*old(tuples)),
        ),
{
    reveal(success_decode_text);
    if is_unit_type(success, recorded) {
        let mut text = String::from_str("      return ");
        text.append(result);
        text.append(".Ok\n");
        return text;
    }
    if shape.header_out.len() == 0 {
        let success_ty = kotlin_typename(success, names, tuples);
        let mut text = String::from_str("      return try {\n        ");
        text.append(result);
        text.append(".Ok(Json.decodeFromJsonElement(serializer<");
        text.append(success_ty.as_str());
        text.append(">(), reply.getValue(\"value\")))\n      } catch (rejected: Throwable) {\n        ");
        text.append(result);
        text.append(".Fault(");
        text.append(fn_prefix);
        text.append("WsFailedValidation(\"");
        text.append(wire);
        text.append("\", rejected.toString()))\n      }\n");
        return text;
    }
    let body_ty = kotlin_typename(body_type(shape.header_out.len(), success), names, tuples);
    let (header_stmts, idents) = header_out_decode_stmts(
        result,
        fn_prefix,
        wire,
        "headers",
        "      ",
        success,
        &shape.header_out,
        "headerOut",
        names,
        tuples,
    );
    let mut text = String::from_str(
        "      val headers = (reply[\"headers\"] as? JsonObject) ?: buildJsonObject {}\n      val value = try {\n        Json.decodeFromJsonElement(serializer<",
    );
    text.append(body_ty.as_str());
    text.append(">(), reply.getValue(\"value\"))\n      } catch (rejected: Throwable) {\n        return ");
    text.append(result);
    text.append(".Fault(");
    text.append(fn_prefix);
    text.append("WsFailedValidation(\"");
    text.append(wire);
    text.append("\", rejected.toString()))\n      }\n");
    text.append(header_stmts.as_str());
    text.append("      return ");
    text.append(result);
    text.append(".Ok(");
    text.append(result);
    text.append("Value(value, ");
    text.append(join_all(&idents, ", ").as_str());
    text.append("))\n");
    text
}

/// The reply's declared-error arm, the twin of [`success_decode_block`].
#[verifier::opaque]
pub open spec fn error_decode_text(
    fn_prefix: Seq<char>,
    wire: Seq<char>,
    result: Seq<char>,
    shape: HttpShape,
    error: FieldDef,
    names: KotlinNames,
    st: Tuples,
) -> (Seq<char>, Tuples) {
    if shape.error_header_out@.len() == 0 {
        let (error_ty, s1) = kt_type(error, names, st);
        (
            "    return try {\n      "@ + result + ".Declared(Json.decodeFromJsonElement(serializer<"@
                + error_ty
                + ">(), error ?: JsonNull))\n    } catch (rejected: Throwable) {\n      "@ + result
                + ".Fault("@ + fn_prefix + "WsFailedValidation(\""@ + wire
                + "\", rejected.toString()))\n    }\n"@,
            s1,
        )
    } else {
        let (head_ty, s1) = kt_type(body_type_of(shape.error_header_out@.len(), error), names, st);
        let ((header_stmts, idents), s2) = header_out_decodes_text(
            result,
            fn_prefix,
            wire,
            "declaredHeaders"@,
            "    "@,
            error,
            shape.error_header_out@,
            "errorHeaderOut"@,
            header_count(shape.error_header_out@.len(), error),
            names,
            s1,
        );
        (
            "    val declaredHeaders = (reply[\"headers\"] as? JsonObject) ?: buildJsonObject {}\n    val declaredHead = try {\n      Json.decodeFromJsonElement(serializer<"@
                + head_ty
                + ">(), error ?: JsonNull)\n    } catch (rejected: Throwable) {\n      return "@
                + result + ".Fault("@ + fn_prefix + "WsFailedValidation(\""@ + wire
                + "\", rejected.toString()))\n    }\n"@ + header_stmts + "    return "@ + result
                + ".Declared("@ + result + "Declared(declaredHead, "@ + join(idents, ", "@) + "))\n"@,
            s2,
        )
    }
}

fn error_decode_block(
    fn_prefix: &str,
    wire: &str,
    result: &str,
    shape: &HttpShape,
    error: &FieldDef,
    names: &KotlinNames,
    tuples: &mut TupleWrappers,
) -> (text: String)
    ensures
        (text@, tuples_of(*final(tuples))) == error_decode_text(
            fn_prefix@,
            wire@,
            result@,
            *shape,
            *error,
            *names,
            tuples_of(*old(tuples)),
        ),
{
    reveal(error_decode_text);
    if shape.error_header_out.len() == 0 {
        let error_ty = kotlin_typename(error, names, tuples);
        let mut text = String::from_str("    return try {\n      ");
        text.append(result);
        text.append(".Declared(Json.decodeFromJsonElement(serializer<");
        text.append(error_ty.as_str());
        text.append(">(), error ?: JsonNull))\n    } catch (rejected: Throwable) {\n      ");
        text.append(result);
        text.append(".Fault(");
        text.append(fn_prefix);
        text.append("WsFailedValidation(\"");
        text.append(wire);
        text.append("\", rejected.toString()))\n    }\n");
        return text;
    }
    let head_ty = kotlin_typename(body_type(shape.error_header_out.len(), error), names, tuples);
    let (header_stmts, idents) = header_out_decode_stmts(
        result,
        fn_prefix,
        wire,
        "declaredHeaders",
        "    ",
        error,
        &shape.error_header_out,
        "errorHeaderOut",
        names,
        tuples,
    );
    let mut text = String::from_str(
        "    val declaredHeaders = (reply[\"headers\"] as? JsonObject) ?: buildJsonObject {}\n    val declaredHead = try {\n      Json.decodeFromJsonElement(serializer<",
    );
    text.append(head_ty.as_str());
    text.append(">(), error ?: JsonNull)\n    } catch (rejected: Throwable) {\n      return ");
    text.append(result);
    text.append(".Fault(");
    text.append(fn_prefix);
    text.append("WsFailedValidation(\"");
    text.append(wire);
    text.append("\", rejected.toString()))\n    }\n");
    text.append(header_stmts.as_str());
    text.append("    return ");
    text.append(result);
    text.append(".Declared(");
    text.append(result);
    text.append("Declared(declaredHead, ");
    text.append(join_all(&idents, ", ").as_str());
    text.append("))\n");
    text
}

/// Reads the reply's own `ok`/`value`/`error` keys: the declared success on `true`, the fault
/// envelope or the declared error otherwise.
#[verifier::opaque]
pub open spec fn reply_decode_text(
    named: Seq<char>,
    fn_prefix: Seq<char>,
    wire: Seq<char>,
    result: Seq<char>,
    shape: HttpShape,
    error: FieldDef,
    success: FieldDef,
    recorded: Recorded,
    names: KotlinNames,
    st: Tuples,
) -> (Seq<char>, Tuples) {
    let (success_block, s1) = success_decode_text(fn_prefix, wire, result, shape, success, recorded, names, st);
    let (error_block, s2) = error_decode_text(fn_prefix, wire, result, shape, error, names, s1);
    (
        "    val ok = (reply[\"ok\"] as? JsonPrimitive)?.booleanOrNull ?: false\n    if (ok) {\n"@
            + success_block
            + "    }\n    val error = reply[\"error\"]\n    val isServiceFault = (error as? JsonObject)?.get(\"isServiceFault\")\n      ?.let { (it as? JsonPrimitive)?.booleanOrNull } ?: false\n    if (isServiceFault) {\n      return try {\n        "@
            + result + ".Fault(\n          Json.decodeFromJsonElement(serializer<"@ + fields_name(named)
            + ">(), error.getValue(\"fault\")),\n        )\n      } catch (rejected: Throwable) {\n        "@
            + result + ".Fault("@ + fn_prefix + "WsFailedValidation(\""@ + wire
            + "\", rejected.toString()))\n      }\n    }\n"@ + error_block,
        s2,
    )
}

fn reply_decode_stmt(
    named: &str,
    fn_prefix: &str,
    wire: &str,
    result: &str,
    shape: &HttpShape,
    error: &FieldDef,
    success: &FieldDef,
    recorded: &Recorded,
    names: &KotlinNames,
    tuples: &mut TupleWrappers,
) -> (text: String)
    ensures
        (text@, tuples_of(*final(tuples))) == reply_decode_text(
            named@,
            fn_prefix@,
            wire@,
            result@,
            *shape,
            *error,
            *success,
            *recorded,
            *names,
            tuples_of(*old(tuples)),
        ),
{
    reveal(reply_decode_text);
    let fields = fault_fields_typescript_name(named);
    let success_block = success_decode_block(fn_prefix, wire, result, shape, success, recorded, names, tuples);
    let error_block = error_decode_block(fn_prefix, wire, result, shape, error, names, tuples);
    let mut text = String::from_str(
        "    val ok = (reply[\"ok\"] as? JsonPrimitive)?.booleanOrNull ?: false\n    if (ok) {\n",
    );
    text.append(success_block.as_str());
    text.append(
        "    }\n    val error = reply[\"error\"]\n    val isServiceFault = (error as? JsonObject)?.get(\"isServiceFault\")\n      ?.let { (it as? JsonPrimitive)?.booleanOrNull } ?: false\n    if (isServiceFault) {\n      return try {\n        ",
    );
    text.append(result);
    text.append(".Fault(\n          Json.decodeFromJsonElement(serializer<");
    text.append(fields.as_str());
    text.append(">(), error.getValue(\"fault\")),\n        )\n      } catch (rejected: Throwable) {\n        ");
    text.append(result);
    text.append(".Fault(");
    text.append(fn_prefix);
    text.append("WsFailedValidation(\"");
    text.append(wire);
    text.append("\", rejected.toString()))\n      }\n    }\n");
    text.append(error_block.as_str());
    text
}

/// One client method: a one-way operation sends a `notify` frame and throws the refusal where it
/// cannot; a reply operation awaits the `reply` frame and answers its sealed result, a transport
/// failure included.
#[verifier::opaque]
pub open spec fn client_method_text(
    named: Seq<char>,
    fn_prefix: Seq<char>,
    operation: OperationDef,
    has_headers: bool,
    recorded: Recorded,
    names: KotlinNames,
    st: Tuples,
) -> (Seq<char>, Tuples) {
    let wire = operation.wire_name@;
    let call = operation.ts_name@;
    let (req_ty, s1) = message_type_text(operation, names, st);
    let (params, s2) = method_params_text(operation.http, req_ty, names, s1);
    let doc = "  /// Calls `"@ + wire + "` over `ws_rpc`."@;
    let (headers_build, s3) = if has_headers {
        headers_build_text(operation.http, names, s2)
    } else {
        (Seq::empty(), s2)
    };
    let headers_arg = if has_headers {
        ", headers"@
    } else {
        ""@
    };
    match operation.outcome {
        OperationOutcome::OneWay => (
            doc + "\n  suspend fun "@ + call + "("@ + params + ") {\n"@ + headers_build
                + "    try {\n      transport.notify(\""@ + wire
                + "\", Json.encodeToJsonElement(serializer<"@ + req_ty + ">(), req)"@ + headers_arg
                + ")\n    } catch (uncarried: Throwable) {\n      throw "@ + named + "WsRefusal("@
                + fn_prefix + "WsTransportFailure(\""@ + wire
                + "\", uncarried.toString()))\n    }\n  }"@,
            s3,
        ),
        OperationOutcome::Reply { error, success } => {
            let result = named + pascal_case(operation.ident@) + "Result"@;
            let (decode, s4) = reply_decode_text(
                named,
                fn_prefix,
                wire,
                result,
                operation.http,
                error,
                success,
                recorded,
                names,
                s3,
            );
            (
                doc + "\n  suspend fun "@ + call + "("@ + params + "): "@ + result + " {\n"@
                    + headers_build + "    val reply = try {\n      transport.request(\""@ + wire
                    + "\", Json.encodeToJsonElement(serializer<"@ + req_ty + ">(), req)"@
                    + headers_arg + ")\n    } catch (uncarried: Throwable) {\n      return "@ + result
                    + ".Fault("@ + fn_prefix + "WsTransportFailure(\""@ + wire
                    + "\", uncarried.toString()))\n    }\n    if (reply == null) {\n      return "@
                    + result + ".Fault(\n        "@ + fn_prefix + "WsTransportFailure(\""@ + wire
                    + "\", \"the connection closed before a reply arrived\"),\n      )\n    }\n"@
                    + decode + "}"@,
                s4,
            )
        },
    }
}

#[verifier::spinoff_prover]
#[verifier::rlimit(40)]
fn client_method(
    named: &str,
    fn_prefix: &str,
    operation: &OperationDef,
    has_headers: bool,
    recorded: &Recorded,
    names: &KotlinNames,
    tuples: &mut TupleWrappers,
) -> (text: String)
    ensures
        (text@, tuples_of(*final(tuples))) == client_method_text(
            named@,
            fn_prefix@,
            *operation,
            has_headers,
            *recorded,
            *names,
            tuples_of(*old(tuples)),
        ),
{
    reveal(client_method_text);
    let wire = operation.wire_name.as_str();
    let call = operation.ts_name.as_str();
    let req_ty = message_kotlin_typename(operation, names, tuples);
    let params = client_method_params(&operation.http, req_ty.as_str(), names, tuples);
    let mut doc = String::from_str("  /// Calls `");
    doc.append(wire);
    doc.append("` over `ws_rpc`.");
    let headers_build = if has_headers {
        client_headers_build_stmt(&operation.http, names, tuples)
    } else {
        String::new()
    };
    let headers_arg = if has_headers {
        ", headers"
    } else {
        ""
    };
    let mut text = doc;
    text.append("\n  suspend fun ");
    text.append(call);
    text.append("(");
    text.append(params.as_str());
    match &operation.outcome {
        OperationOutcome::OneWay => {
            text.append(") {\n");
            text.append(headers_build.as_str());
            text.append("    try {\n      transport.notify(\"");
            text.append(wire);
            text.append("\", Json.encodeToJsonElement(serializer<");
            text.append(req_ty.as_str());
            text.append(">(), req)");
            text.append(headers_arg);
            text.append(")\n    } catch (uncarried: Throwable) {\n      throw ");
            text.append(named);
            text.append("WsRefusal(");
            text.append(fn_prefix);
            text.append("WsTransportFailure(\"");
            text.append(wire);
            text.append("\", uncarried.toString()))\n    }\n  }");
            text
        },
        OperationOutcome::Reply { error, success } => {
            let result = match result_name(named, operation) {
                Some(result) => result,
                None => String::new(),
            };
            let decode = reply_decode_stmt(
                named,
                fn_prefix,
                wire,
                result.as_str(),
                &operation.http,
                error,
                success,
                recorded,
                names,
                tuples,
            );
            text.append("): ");
            text.append(result.as_str());
            text.append(" {\n");
            text.append(headers_build.as_str());
            text.append("    val reply = try {\n      transport.request(\"");
            text.append(wire);
            text.append("\", Json.encodeToJsonElement(serializer<");
            text.append(req_ty.as_str());
            text.append(">(), req)");
            text.append(headers_arg);
            text.append(")\n    } catch (uncarried: Throwable) {\n      return ");
            text.append(result.as_str());
            text.append(".Fault(");
            text.append(fn_prefix);
            text.append("WsTransportFailure(\"");
            text.append(wire);
            text.append("\", uncarried.toString()))\n    }\n    if (reply == null) {\n      return ");
            text.append(result.as_str());
            text.append(".Fault(\n        ");
            text.append(fn_prefix);
            text.append("WsTransportFailure(\"");
            text.append(wire);
            text.append("\", \"the connection closed before a reply arrived\"),\n      )\n    }\n");
            text.append(decode.as_str());
            text.append("}");
            text
        },
    }
}

/// Each operation's client method, rendered in declaration order.
pub open spec fn client_methods_text(
    named: Seq<char>,
    fn_prefix: Seq<char>,
    operations: Seq<OperationDef>,
    has_headers: bool,
    recorded: Recorded,
    names: KotlinNames,
    st: Tuples,
) -> (Seq<Seq<char>>, Tuples)
    decreases operations.len(),
{
    if operations.len() == 0 {
        (Seq::empty(), st)
    } else {
        let (before, s1) = client_methods_text(
            named,
            fn_prefix,
            operations.drop_last(),
            has_headers,
            recorded,
            names,
            st,
        );
        let (last, s2) = client_method_text(named, fn_prefix, operations.last(), has_headers, recorded, names, s1);
        (before.push(last), s2)
    }
}

/// The client class: one method per operation.
#[verifier::opaque]
pub open spec fn client_class_text(
    service: ServiceDef,
    named: Seq<char>,
    fn_prefix: Seq<char>,
    has_headers: bool,
    names: KotlinNames,
    st: Tuples,
) -> (Seq<char>, Tuples) {
    let (methods, s1) = client_methods_text(
        named,
        fn_prefix,
        service.operations@,
        has_headers,
        service.recorded,
        names,
        st,
    );
    (
        "/// A `"@ + named + "` caller over `ws_rpc`.\nclass "@ + named + "WsClient(private val transport: "@
            + named + "WsTransport) {\n"@ + join(methods, "\n\n"@) + "\n}"@,
        s1,
    )
}

#[verifier::spinoff_prover]
#[verifier::rlimit(60)]
fn client_class(
    service: &ServiceDef,
    named: &str,
    fn_prefix: &str,
    has_headers: bool,
    names: &KotlinNames,
    tuples: &mut TupleWrappers,
) -> (text: String)
    ensures
        (text@, tuples_of(*final(tuples))) == client_class_text(
            *service,
            named@,
            fn_prefix@,
            has_headers,
            *names,
            tuples_of(*old(tuples)),
        ),
{
    reveal(client_class_text);
    let ghost start = tuples_of(*tuples);
    let mut methods: Vec<String> = Vec::new();
    let mut i: usize = 0;
    while i < service.operations.len()
        invariant
            0 <= i <= service.operations.len(),
            (views(methods@), tuples_of(*tuples)) == client_methods_text(
                named@,
                fn_prefix@,
                service.operations@.take(i as int),
                has_headers,
                service.recorded,
                *names,
                start,
            ),
        decreases service.operations.len() - i,
    {
        assert(service.operations@.take(i + 1).drop_last() =~= service.operations@.take(i as int));
        let method = client_method(named, fn_prefix, &service.operations[i], has_headers, &service.recorded, names, tuples);
        let ghost before = views(methods@);
        methods.push(method);
        assert(views(methods@) =~= before.push(methods@.last()@));
        i += 1;
    }
    assert(service.operations@.take(service.operations.len() as int) =~= service.operations@);
    let mut text = String::from_str("/// A `");
    text.append(named);
    text.append("` caller over `ws_rpc`.\nclass ");
    text.append(named);
    text.append("WsClient(private val transport: ");
    text.append(named);
    text.append("WsTransport) {\n");
    text.append(join_all(&methods, "\n\n").as_str());
    text.append("\n}");
    text
}

/// One handler: `req` and the bound headers in, the sealed result out for a reply operation.
#[verifier::opaque]
pub open spec fn handler_member_text(named: Seq<char>, operation: OperationDef, names: KotlinNames, st: Tuples) -> (
    Seq<char>,
    Tuples,
) {
    let call = operation.ts_name@;
    let (req_ty, s1) = message_type_text(operation, names, st);
    let (params, s2) = method_params_text(operation.http, req_ty, names, s1);
    match result_name_text(named, operation) {
        Some(result) => ("  suspend fun "@ + call + "("@ + params + "): "@ + result, s2),
        None => ("  suspend fun "@ + call + "("@ + params + ")"@, s2),
    }
}

fn handler_params(operation: &OperationDef, names: &KotlinNames, tuples: &mut TupleWrappers) -> (text: String)
    ensures
        (text@, tuples_of(*final(tuples))) == ({
            let (req_ty, s1) = message_type_text(*operation, *names, tuples_of(*old(tuples)));
            method_params_text(operation.http, req_ty, *names, s1)
        }),
{
    let req_ty = message_kotlin_typename(operation, names, tuples);
    client_method_params(&operation.http, req_ty.as_str(), names, tuples)
}

fn handler_member(named: &str, operation: &OperationDef, names: &KotlinNames, tuples: &mut TupleWrappers) -> (text: String)
    ensures
        (text@, tuples_of(*final(tuples))) == handler_member_text(named@, *operation, *names, tuples_of(*old(tuples))),
{
    reveal(handler_member_text);
    let params = handler_params(operation, names, tuples);
    let mut text = String::from_str("  suspend fun ");
    text.append(operation.ts_name.as_str());
    text.append("(");
    text.append(params.as_str());
    match result_name(named, operation) {
        Some(result) => {
            text.append("): ");
            text.append(result.as_str());
        },
        None => {
            text.append(")");
        },
    }
    text
}

/// Each operation's handler, rendered in declaration order.
pub open spec fn handler_members_text(named: Seq<char>, operations: Seq<OperationDef>, names: KotlinNames, st: Tuples) -> (
    Seq<Seq<char>>,
    Tuples,
)
    decreases operations.len(),
{
    if operations.len() == 0 {
        (Seq::empty(), st)
    } else {
        let (before, s1) = handler_members_text(named, operations.drop_last(), names, st);
        let (last, s2) = handler_member_text(named, operations.last(), names, s1);
        (before.push(last), s2)
    }
}

/// What an attachment dispatches an inbound frame to: one handler per declared operation.
#[verifier::opaque]
pub open spec fn handlers_interface_text(service: ServiceDef, named: Seq<char>, names: KotlinNames, st: Tuples) -> (
    Seq<char>,
    Tuples,
) {
    let (members, s1) = handler_members_text(named, service.operations@, names, st);
    (
        "/// What a `"@ + named
            + "` `ws_rpc` attachment dispatches an inbound frame to: one handler per\n/// declared operation. A reply operation answers the same sealed result the client\n/// reads rather than throwing its declared error; anything a handler throws regardless\n/// reaches `onFault` instead.\ninterface "@
            + named + "Handlers {\n"@ + join(members, "\n"@) + "\n}"@,
        s1,
    )
}

fn handlers_interface(service: &ServiceDef, named: &str, names: &KotlinNames, tuples: &mut TupleWrappers) -> (text: String)
    ensures
        (text@, tuples_of(*final(tuples))) == handlers_interface_text(*service, named@, *names, tuples_of(*old(tuples))),
{
    reveal(handlers_interface_text);
    let ghost start = tuples_of(*tuples);
    let mut members: Vec<String> = Vec::new();
    let mut i: usize = 0;
    while i < service.operations.len()
        invariant
            0 <= i <= service.operations.len(),
            (views(members@), tuples_of(*tuples)) == handler_members_text(
                named@,
                service.operations@.take(i as int),
                *names,
                start,
            ),
        decreases service.operations.len() - i,
    {
        assert(service.operations@.take(i + 1).drop_last() =~= service.operations@.take(i as int));
        let member = handler_member(named, &service.operations[i], names, tuples);
        let ghost before = views(members@);
        members.push(member);
        assert(views(members@) =~= before.push(members@.last()@));
        i += 1;
    }
    assert(service.operations@.take(service.operations.len() as int) =~= service.operations@);
    let mut text = String::from_str("/// What a `");
    text.append(named);
    text.append(
        "` `ws_rpc` attachment dispatches an inbound frame to: one handler per\n/// declared operation. A reply operation answers the same sealed result the client\n/// reads rather than throwing its declared error; anything a handler throws regardless\n/// reaches `onFault` instead.\ninterface ",
    );
    text.append(named);
    text.append("Handlers {\n");
    text.append(join_all(&members, "\n").as_str());
    text.append("\n}");
    text
}

// ----- The whole surface. -----

/// Whether any operation binds a `header_in` value.
pub open spec fn any_header_in(operations: Seq<OperationDef>) -> bool {
    exists|i: int| 0 <= i < operations.len() && operations[i].http.header_in@.len() > 0
}

/// Whether any operation declares `header_out` or `error_header_out`.
pub open spec fn any_header_out(operations: Seq<OperationDef>) -> bool {
    exists|i: int|
        0 <= i < operations.len() && (operations[i].http.header_out@.len() > 0
            || operations[i].http.error_header_out@.len() > 0)
}

pub(crate) fn declares_header_in(service: &ServiceDef) -> (found: bool)
    ensures
        found == any_header_in(service.operations@),
{
    let mut i: usize = 0;
    while i < service.operations.len()
        invariant
            0 <= i <= service.operations.len(),
            forall|j: int| 0 <= j < i ==> service.operations@[j].http.header_in@.len() == 0,
        decreases service.operations.len() - i,
    {
        if service.operations[i].http.header_in.len() > 0 {
            return true;
        }
        i += 1;
    }
    false
}

fn declares_header_out_or_error(service: &ServiceDef) -> (found: bool)
    ensures
        found == any_header_out(service.operations@),
{
    let mut i: usize = 0;
    while i < service.operations.len()
        invariant
            0 <= i <= service.operations.len(),
            forall|j: int|
                0 <= j < i ==> service.operations@[j].http.header_out@.len() == 0
                    && service.operations@[j].http.error_header_out@.len() == 0,
        decreases service.operations.len() - i,
    {
        let http = &service.operations[i].http;
        if http.header_out.len() > 0 || http.error_header_out.len() > 0 {
            return true;
        }
        i += 1;
    }
    false
}

/// Everything the `ws_rpc` client publishes, in the order a bundle reads it: the socket seam, the
/// heartbeat options, the frames record, the one-way refusal where one is needed, the transport,
/// the client, the handlers, the attachment and its dispatcher, and the fault helpers.
pub open spec fn emit_text(service: ServiceDef, names: KotlinNames, st: Tuples) -> (Seq<Seq<char>>, Tuples) {
    let named = service.ident@;
    let fn_prefix = lower_first(named);
    let has_header_in = any_header_in(service.operations@);
    let needs_field = has_header_in || any_header_out(service.operations@);
    let head = seq![socket_interface_text(named), options_class_text(named), frames_class_text(named)];
    let refusal = if any_one_way(service.operations@) {
        seq![refusal_class_text(named)]
    } else {
        Seq::empty()
    };
    let (client, s1) = client_class_text(service, named, fn_prefix, has_header_in, names, st);
    let (handlers, s2) = handlers_interface_text(service, named, names, s1);
    let (dispatch, s3) = dispatch_fn_text(service, named, fn_prefix, has_header_in, names, s2);
    (
        head + refusal + seq![
            transport_class_text(named, has_header_in),
            client,
            handlers,
            attachment_class_text(named),
            attach_dispatcher_fn_text(named, fn_prefix, has_header_in),
            dispatch,
        ] + fault_helpers_text(named, fn_prefix, needs_field),
        s3,
    )
}

#[verifier::spinoff_prover]
#[verifier::rlimit(60)]
pub fn emit(service: &ServiceDef, names: &KotlinNames, tuples: &mut TupleWrappers) -> (published: Vec<String>)
    ensures
        (views(published@), tuples_of(*final(tuples))) == emit_text(*service, *names, tuples_of(*old(tuples))),
{
    let named = service.ident.as_str();
    let fn_prefix = camel_case_of_variant(named);
    let has_header_in = declares_header_in(service);
    let needs_field = has_header_in || declares_header_out_or_error(service);
    let mut published: Vec<String> = Vec::new();
    published.push(socket_interface(named));
    published.push(options_class(named));
    published.push(frames_class(named));
    if has_one_way(service) {
        published.push(refusal_class(named));
    }
    published.push(transport_class(named, has_header_in));
    published.push(client_class(service, named, fn_prefix.as_str(), has_header_in, names, tuples));
    published.push(handlers_interface(service, named, names, tuples));
    published.push(attachment_class(named));
    published.push(attach_dispatcher_fn(named, fn_prefix.as_str(), has_header_in));
    published.push(dispatch_fn(service, named, fn_prefix.as_str(), has_header_in, names, tuples));
    let helpers = fault_helpers(named, fn_prefix.as_str(), needs_field);
    let ghost before = views(published@);
    let mut i: usize = 0;
    while i < helpers.len()
        invariant
            0 <= i <= helpers.len(),
            views(published@) == before + views(helpers@).take(i as int),
        decreases helpers.len() - i,
    {
        let ghost prior = views(published@);
        published.push(helpers[i].clone());
        assert(views(published@) =~= prior.push(helpers@[i as int]@));
        assert(views(helpers@).take(i + 1) =~= views(helpers@).take(i as int).push(helpers@[i as int]@));
        i += 1;
    }
    assert(views(helpers@).take(helpers.len() as int) =~= views(helpers@));
    published
}

} // verus!
