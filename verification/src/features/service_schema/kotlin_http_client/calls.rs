//! The Kotlin `http_rest` client class, one `suspend` method per operation, and the private
//! helpers every method reaches for.
use super::request::{
    body_build_stmt, body_build_text, header_in_build_stmt, header_in_build_text, method_doc, method_doc_text,
    method_params, method_params_text, multipart_parts_build_stmt, parts_build_text, path_build_stmt,
    path_build_text, query_build_stmt, query_build_text,
};
use super::response::{
    find_header_call, find_header_text, one_way_decode_stmt, one_way_decode_text, reply_decode_stmt, reply_decode_text,
    send_one_way_text, send_reply_text, send_stmt_one_way, send_stmt_reply,
};
use crate::features::kotlin::{tuples_of, KotlinNames, TupleWrappers, Tuples};
use crate::features::service_schema::fault::{fault_fields_typescript_name, fields_name};
use crate::features::service_schema::kotlin_ws_client::{message_kotlin_typename, message_type_text};
use crate::features::service_schema::result::{result_name, result_name_text};
use crate::field_type::Recorded;
use crate::service_def::{method_name, BodyKind, OperationDef, OperationOutcome, ServiceDef};
use crate::text::{join, join_all, views};
use vstd::prelude::*;

verus! {

/// One `suspend` method: its documentation line, its signature, then the statements that build
/// the request, send it, and read the answer. `named` is the service, `fn_prefix` the prefix its
/// private helpers carry, `has_multipart` whether it declares a multipart body, and
/// `default_status` what a declared error answers with where none was mapped.
#[verifier::opaque]
pub open spec fn method_text(
    named: Seq<char>,
    fn_prefix: Seq<char>,
    operation: OperationDef,
    has_multipart: bool,
    default_status: u16,
    recorded: Recorded,
    names: KotlinNames,
    st: Tuples,
) -> (Seq<char>, Tuples) {
    let call = operation.ts_name@;
    let wire = operation.wire_name@;
    let method = method_name(operation.http.method);
    let (params, s1) = method_params_text(operation, names, st);
    let (path, s2) = path_build_text(operation, fn_prefix, names, s1);
    let (query, s3) = query_build_text(operation, fn_prefix, names, s2);
    let (headers, s4) = header_in_build_text(operation.http, names, s3);
    let (req_type, s5) = message_type_text(operation, names, s4);
    let body = body_build_text(operation.http, req_type);
    let (parts, s6) = parts_build_text(operation, has_multipart, names, s5);
    let (signature, send, decode, s7) = match operation.outcome {
        OperationOutcome::OneWay => (
            "  suspend fun "@ + call + "("@ + params + ")"@,
            send_one_way_text(named, fn_prefix, wire, method, has_multipart),
            one_way_decode_text(named, fn_prefix, operation.http.ok_status, wire),
            s6,
        ),
        OperationOutcome::Reply { error, success } => {
            let result = result_name_text(named, operation)->0;
            let (decode, s) = reply_decode_text(
                result,
                fn_prefix,
                wire,
                operation.http,
                error,
                success,
                default_status,
                recorded,
                names,
                s6,
            );
            (
                "  suspend fun "@ + call + "("@ + params + "): "@ + result,
                send_reply_text(named, result, fn_prefix, wire, method, has_multipart),
                decode,
                s,
            )
        },
    };
    (
        method_doc_text(operation) + "\n"@ + signature + " {\n"@ + path + query + headers + body + parts + send + decode
            + "  }"@,
        s7,
    )
}

#[verifier::spinoff_prover]
pub fn method(
    named: &str,
    fn_prefix: &str,
    operation: &OperationDef,
    has_multipart: bool,
    default_status: u16,
    recorded: &Recorded,
    names: &KotlinNames,
    tuples: &mut TupleWrappers,
) -> (text: String)
    ensures
        (text@, tuples_of(*final(tuples))) == method_text(
            named@,
            fn_prefix@,
            *operation,
            has_multipart,
            default_status,
            *recorded,
            *names,
            tuples_of(*old(tuples)),
        ),
{
    let ghost s0 = tuples_of(*tuples);
    let wire = operation.wire_name.as_str();
    let method = operation.http.method.name();
    let params = method_params(operation, names, tuples);
    let ghost s1 = tuples_of(*tuples);
    let path = path_build_stmt(operation, fn_prefix, names, tuples);
    let ghost s2 = tuples_of(*tuples);
    let query = query_build_stmt(operation, fn_prefix, names, tuples);
    let ghost s3 = tuples_of(*tuples);
    let headers = header_in_build_stmt(&operation.http, names, tuples);
    let ghost s4 = tuples_of(*tuples);
    let req_type = message_kotlin_typename(operation, names, tuples);
    let ghost s5 = tuples_of(*tuples);
    let body = body_build_stmt(&operation.http, req_type.as_str());
    let parts = multipart_parts_build_stmt(operation, has_multipart, names, tuples);
    let ghost s6 = tuples_of(*tuples);
    proof {
        assert((params@, s1) == method_params_text(*operation, *names, s0));
        assert((path@, s2) == path_build_text(*operation, fn_prefix@, *names, s1));
        assert((query@, s3) == query_build_text(*operation, fn_prefix@, *names, s2));
        assert((headers@, s4) == header_in_build_text(operation.http, *names, s3));
        assert((req_type@, s5) == message_type_text(*operation, *names, s4));
        assert((parts@, s6) == parts_build_text(*operation, has_multipart, *names, s5));
    }
    let mut signature = String::from_str("  suspend fun ");
    signature.append(operation.ts_name.as_str());
    signature.append("(");
    signature.append(params.as_str());
    let (send, decode) = match &operation.outcome {
        OperationOutcome::OneWay => {
            signature.append(")");
            let send = send_stmt_one_way(named, fn_prefix, wire, method, has_multipart);
            let decode = one_way_decode_stmt(named, fn_prefix, operation.http.ok_status, wire);
            assert(signature@ == "  suspend fun "@ + operation.ts_name@ + "("@ + params@ + ")"@);
            assert(send@ == send_one_way_text(named@, fn_prefix@, operation.wire_name@, method_name(operation.http.method), has_multipart));
            assert(tuples_of(*tuples) == s6);
            (send, decode)
        },
        OperationOutcome::Reply { error, success } => {
            let result = match result_name(named, operation) {
                Some(result) => result,
                None => String::new(),
            };
            assert(result@ == result_name_text(named@, *operation)->0);
            signature.append("): ");
            signature.append(result.as_str());
            let send = send_stmt_reply(named, result.as_str(), fn_prefix, wire, method, has_multipart);
            let decode = reply_decode_stmt(
                result.as_str(),
                fn_prefix,
                wire,
                &operation.http,
                error,
                success,
                default_status,
                recorded,
                names,
                tuples,
            );
            assert(signature@ == "  suspend fun "@ + operation.ts_name@ + "("@ + params@ + "): "@ + result@);
            assert((decode@, tuples_of(*tuples)) == reply_decode_text(
                result@,
                fn_prefix@,
                operation.wire_name@,
                operation.http,
                *error,
                *success,
                default_status,
                *recorded,
                *names,
                s6,
            ));
            (send, decode)
        },
    };
    let mut text = method_doc(operation);
    text.append("\n");
    text.append(signature.as_str());
    text.append(" {\n");
    text.append(path.as_str());
    text.append(query.as_str());
    text.append(headers.as_str());
    text.append(body.as_str());
    text.append(parts.as_str());
    text.append(send.as_str());
    text.append(decode.as_str());
    text.append("  }");
    assert(text@ == method_doc_text(*operation) + "\n"@ + signature@ + " {\n"@ + path@ + query@ + headers@ + body@
        + parts@ + send@ + decode@ + "  }"@);
    proof {
        reveal(method_text);
    }
    text
}

/// One method per operation, in order.
pub open spec fn methods_text(
    named: Seq<char>,
    fn_prefix: Seq<char>,
    operations: Seq<OperationDef>,
    has_multipart: bool,
    default_status: u16,
    recorded: Recorded,
    names: KotlinNames,
    st: Tuples,
) -> (Seq<Seq<char>>, Tuples)
    decreases operations.len(),
{
    if operations.len() == 0 {
        (Seq::empty(), st)
    } else {
        let (before, s1) = methods_text(
            named,
            fn_prefix,
            operations.drop_last(),
            has_multipart,
            default_status,
            recorded,
            names,
            st,
        );
        let (last, s2) = method_text(
            named,
            fn_prefix,
            operations.last(),
            has_multipart,
            default_status,
            recorded,
            names,
            s1,
        );
        (before.push(last), s2)
    }
}

/// The client class: a constructor taking the transport, then every method.
pub open spec fn client_class_text(
    service: ServiceDef,
    fn_prefix: Seq<char>,
    has_multipart: bool,
    names: KotlinNames,
    st: Tuples,
) -> (Seq<char>, Tuples) {
    let named = service.ident@;
    let (methods, s1) = methods_text(
        named,
        fn_prefix,
        service.operations@,
        has_multipart,
        service.default_error_status,
        service.recorded,
        names,
        st,
    );
    (
        "/// A `"@ + named + "` caller over `http_rest`.\nclass "@ + named + "HttpClient(private val transport: "@
            + named + "HttpTransport) {\n"@ + join(methods, "\n\n"@) + "\n}"@,
        s1,
    )
}

pub fn client_class(
    service: &ServiceDef,
    fn_prefix: &str,
    has_multipart: bool,
    names: &KotlinNames,
    tuples: &mut TupleWrappers,
) -> (text: String)
    ensures
        (text@, tuples_of(*final(tuples))) == client_class_text(
            *service,
            fn_prefix@,
            has_multipart,
            *names,
            tuples_of(*old(tuples)),
        ),
{
    let named = service.ident.as_str();
    let ghost start = tuples_of(*tuples);
    let mut methods: Vec<String> = Vec::new();
    let mut i: usize = 0;
    while i < service.operations.len()
        invariant
            0 <= i <= service.operations.len(),
            named@ == service.ident@,
            ({
                let (rendered, after) = methods_text(
                    service.ident@,
                    fn_prefix@,
                    service.operations@.take(i as int),
                    has_multipart,
                    service.default_error_status,
                    service.recorded,
                    *names,
                    start,
                );
                views(methods@) == rendered && tuples_of(*tuples) == after
            }),
        decreases service.operations.len() - i,
    {
        assert(service.operations@.take(i + 1).drop_last() =~= service.operations@.take(i as int));
        let one = method(
            named,
            fn_prefix,
            &service.operations[i],
            has_multipart,
            service.default_error_status,
            &service.recorded,
            names,
            tuples,
        );
        let ghost before = views(methods@);
        methods.push(one);
        assert(views(methods@) =~= before.push(one@));
        i += 1;
    }
    assert(service.operations@.take(service.operations.len() as int) =~= service.operations@);
    let mut text = String::from_str("/// A `");
    text.append(named);
    text.append("` caller over `http_rest`.\nclass ");
    text.append(named);
    text.append("HttpClient(private val transport: ");
    text.append(named);
    text.append("HttpTransport) {\n");
    text.append(join_all(&methods, "\n\n").as_str());
    text.append("\n}");
    text
}

/// The percent-encoder every path and query value is written through: every byte but the
/// unreserved set written `%XX`.
pub open spec fn percent_encode_text(fn_prefix: Seq<char>) -> Seq<char> {
    "/// Percent-encodes `value` for a URL path segment or query value: every byte but the\n/// unreserved set (`A-Za-z0-9-._~`) is written `%XX`.\nprivate fun "@
        + fn_prefix
        + "HttpPercentEncode(value: String): String {\n  val builder = StringBuilder()\n  for (byte in value.encodeToByteArray()) {\n    val ch = byte.toInt().toChar()\n    if (ch.isLetterOrDigit() && ch.code < 128 || ch == '-' || ch == '.' || ch == '_' || ch == '~') {\n      builder.append(ch)\n    } else {\n      builder.append('%')\n      builder.append(String.format(\"%02X\", byte.toInt() and 0xFF))\n    }\n  }\n  return builder.toString()\n}"@
}

fn percent_encode_fn(fn_prefix: &str) -> (text: String)
    ensures
        text@ == percent_encode_text(fn_prefix@),
{
    let mut text = String::from_str(
        "/// Percent-encodes `value` for a URL path segment or query value: every byte but the\n/// unreserved set (`A-Za-z0-9-._~`) is written `%XX`.\nprivate fun ",
    );
    text.append(fn_prefix);
    text.append(
        "HttpPercentEncode(value: String): String {\n  val builder = StringBuilder()\n  for (byte in value.encodeToByteArray()) {\n    val ch = byte.toInt().toChar()\n    if (ch.isLetterOrDigit() && ch.code < 128 || ch == '-' || ch == '.' || ch == '_' || ch == '~') {\n      builder.append(ch)\n    } else {\n      builder.append('%')\n      builder.append(String.format(\"%02X\", byte.toInt() and 0xFF))\n    }\n  }\n  return builder.toString()\n}",
    );
    text
}

/// The case-insensitive response-header lookup.
pub open spec fn find_header_fn_text(fn_prefix: Seq<char>) -> Seq<char> {
    "/// Reads one response header back case-insensitively, the way HTTP headers are read.\nprivate fun "@
        + find_header_text(fn_prefix)
        + "(headers: List<Pair<String, String>>, name: String): String? {\n  for (header in headers) {\n    if (header.first.lowercase() == name) return header.second\n  }\n  return null\n}"@
}

fn find_header_fn(fn_prefix: &str) -> (text: String)
    ensures
        text@ == find_header_fn_text(fn_prefix@),
{
    let mut text = String::from_str(
        "/// Reads one response header back case-insensitively, the way HTTP headers are read.\nprivate fun ",
    );
    text.append(find_header_call(fn_prefix).as_str());
    text.append(
        "(headers: List<Pair<String, String>>, name: String): String? {\n  for (header in headers) {\n    if (header.first.lowercase() == name) return header.second\n  }\n  return null\n}",
    );
    text
}

/// The fault answered when the transport could not carry a call.
pub open spec fn transport_failure_text(named: Seq<char>, fn_prefix: Seq<char>) -> Seq<char> {
    "/// The fault a `"@ + named
        + "` HTTP client answers with when the transport could not carry a\n/// call: the request never went out, or the response never came back.\nprivate fun "@
        + fn_prefix + "HttpTransportFailure(operation: String, detail: String): "@ + fields_name(named) + " =\n  "@
        + fields_name(named) + "(\n    detail = detail,\n    kind = "@ + named
        + "FaultKind.TransportFailure,\n    operation = operation,\n  )"@
}

fn transport_failure_fn(named: &str, fn_prefix: &str) -> (text: String)
    ensures
        text@ == transport_failure_text(named@, fn_prefix@),
{
    let fields = fault_fields_typescript_name(named);
    let mut text = String::from_str("/// The fault a `");
    text.append(named);
    text.append(
        "` HTTP client answers with when the transport could not carry a\n/// call: the request never went out, or the response never came back.\nprivate fun ",
    );
    text.append(fn_prefix);
    text.append("HttpTransportFailure(operation: String, detail: String): ");
    text.append(fields.as_str());
    text.append(" =\n  ");
    text.append(fields.as_str());
    text.append("(\n    detail = detail,\n    kind = ");
    text.append(named);
    text.append("FaultKind.TransportFailure,\n    operation = operation,\n  )");
    text
}

/// The fault answered when a response will not become the answer its status promised.
pub open spec fn undeserializable_payload_text(named: Seq<char>, fn_prefix: Seq<char>) -> Seq<char> {
    "/// The fault a `"@ + named
        + "` HTTP client answers with when a response will not become the\n/// answer its status promised: a body that will not parse, a declared header that never\n/// arrived, or a status this client did not expect.\nprivate fun "@
        + fn_prefix + "HttpUndeserializablePayload(operation: String, detail: String): "@ + fields_name(named)
        + " =\n  "@ + fields_name(named) + "(\n    detail = detail,\n    kind = "@ + named
        + "FaultKind.UndeserializablePayload,\n    operation = operation,\n  )"@
}

fn undeserializable_payload_fn(named: &str, fn_prefix: &str) -> (text: String)
    ensures
        text@ == undeserializable_payload_text(named@, fn_prefix@),
{
    let fields = fault_fields_typescript_name(named);
    let mut text = String::from_str("/// The fault a `");
    text.append(named);
    text.append(
        "` HTTP client answers with when a response will not become the\n/// answer its status promised: a body that will not parse, a declared header that never\n/// arrived, or a status this client did not expect.\nprivate fun ",
    );
    text.append(fn_prefix);
    text.append("HttpUndeserializablePayload(operation: String, detail: String): ");
    text.append(fields.as_str());
    text.append(" =\n  ");
    text.append(fields.as_str());
    text.append("(\n    detail = detail,\n    kind = ");
    text.append(named);
    text.append("FaultKind.UndeserializablePayload,\n    operation = operation,\n  )");
    text
}

/// A fixed fault status's own body read back into the fault it carries.
pub open spec fn fault_from_body_text(named: Seq<char>, fn_prefix: Seq<char>) -> Seq<char> {
    "/// Reads a fixed fault status's own body back into a `"@ + fields_name(named)
        + "`, through the same JSON\n/// codec every other surface reads it with. A body that does not read as the fixed fault\n/// shape is itself a defect, answered as one.\nprivate fun "@
        + fn_prefix + "HttpFaultFromBody(operation: String, response: "@ + named + "HttpResponse): "@
        + fields_name(named) + " =\n  try {\n    Json.decodeFromString(serializer<"@ + fields_name(named)
        + ">(), response.body.decodeToString())\n  } catch (rejected: Throwable) {\n    "@ + fn_prefix
        + "HttpUndeserializablePayload(\n      operation,\n      \"a fault body did not match the expected shape\",\n    )\n  }"@
}

fn fault_from_body_fn(named: &str, fn_prefix: &str) -> (text: String)
    ensures
        text@ == fault_from_body_text(named@, fn_prefix@),
{
    let fields = fault_fields_typescript_name(named);
    let mut text = String::from_str("/// Reads a fixed fault status's own body back into a `");
    text.append(fields.as_str());
    text.append(
        "`, through the same JSON\n/// codec every other surface reads it with. A body that does not read as the fixed fault\n/// shape is itself a defect, answered as one.\nprivate fun ",
    );
    text.append(fn_prefix);
    text.append("HttpFaultFromBody(operation: String, response: ");
    text.append(named);
    text.append("HttpResponse): ");
    text.append(fields.as_str());
    text.append(" =\n  try {\n    Json.decodeFromString(serializer<");
    text.append(fields.as_str());
    text.append(">(), response.body.decodeToString())\n  } catch (rejected: Throwable) {\n    ");
    text.append(fn_prefix);
    text.append(
        "HttpUndeserializablePayload(\n      operation,\n      \"a fault body did not match the expected shape\",\n    )\n  }",
    );
    text
}

/// Whether some operation reads a response header: a declared `header_out`, or a bytes or
/// streamed body, whose content type or range travels as one.
pub open spec fn reads_response_header(operations: Seq<OperationDef>) -> bool {
    exists|i: int|
        0 <= i < operations.len() && {
            let http = (#[trigger] operations[i]).http;
            http.header_out@.len() > 0 || http.body_kind == BodyKind::Bytes || http.body_kind == BodyKind::Stream
        }
}

fn reads_a_response_header(service: &ServiceDef) -> (reads: bool)
    ensures
        reads == reads_response_header(service.operations@),
{
    let mut i: usize = 0;
    while i < service.operations.len()
        invariant
            0 <= i <= service.operations.len(),
            forall|j: int|
                0 <= j < i ==> {
                    let http = (#[trigger] service.operations@[j]).http;
                    !(http.header_out@.len() > 0 || http.body_kind == BodyKind::Bytes || http.body_kind
                        == BodyKind::Stream)
                },
        decreases service.operations.len() - i,
    {
        let http = &service.operations[i].http;
        if http.header_out.len() > 0 || http.body_kind == BodyKind::Bytes || http.body_kind == BodyKind::Stream {
            return true;
        }
        i += 1;
    }
    false
}

/// The private helpers every method reaches for: the percent-encoder, the header lookup where
/// some operation reads a response header, and the three faults a client answers on its own.
pub open spec fn fault_helpers_text(service: ServiceDef, fn_prefix: Seq<char>) -> Seq<Seq<char>> {
    let named = service.ident@;
    let lookup = if reads_response_header(service.operations@) {
        seq![find_header_fn_text(fn_prefix)]
    } else {
        Seq::empty()
    };
    seq![percent_encode_text(fn_prefix)] + lookup + seq![
        transport_failure_text(named, fn_prefix),
        undeserializable_payload_text(named, fn_prefix),
        fault_from_body_text(named, fn_prefix),
    ]
}

pub fn fault_helpers(service: &ServiceDef, fn_prefix: &str) -> (helpers: Vec<String>)
    ensures
        views(helpers@) == fault_helpers_text(*service, fn_prefix@),
{
    let named = service.ident.as_str();
    let mut helpers: Vec<String> = Vec::new();
    helpers.push(percent_encode_fn(fn_prefix));
    let ghost first = views(helpers@);
    if reads_a_response_header(service) {
        helpers.push(find_header_fn(fn_prefix));
    }
    let ghost middle = views(helpers@);
    helpers.push(transport_failure_fn(named, fn_prefix));
    helpers.push(undeserializable_payload_fn(named, fn_prefix));
    helpers.push(fault_from_body_fn(named, fn_prefix));
    assert(views(helpers@) =~= fault_helpers_text(*service, fn_prefix@));
    helpers
}

} // verus!
