//! The TypeScript a service implements: an interface it satisfies in full or does not compile, the
//! outcomes its operations answer with, and the factory that turns an implementation into a
//! dispatcher.
//!
//! The interface has one required member per operation, so an implementation missing one is
//! refused where it reaches the factory. `<Service><Operation>Outcome` is what an implementation
//! returns: the value or the declared error, never a fault; a fault is built only by the
//! dispatcher and the client.
//!
//! Every dispatch arm parses the payload against the message's schema before it calls the
//! implementation, and reads each bound header and part, refusing through a framed fault, so an
//! implementation may assume what it is handed is valid.
pub mod dispatch;

use super::fault::{minted, minted_text};
use super::message::{typename, typename_text};
use super::http_client::request::{binding_params_text, push_binding_params};
use crate::field_type::{is_unit_type, ts_typename, typescript_typename, unit_type, Recorded};
use crate::rename_rule::{camel_case_of_variant, lower_first, pascal_case, pascal_case_of_field};
use crate::service_def::{one_way, OperationDef, OperationOutcome, ServiceDef};
use crate::text::{join, join_all, push_char, views};
use dispatch::{any_header_in, dispatcher, dispatcher_text, has_header_in};
use vstd::prelude::*;

verus! {

/// `text` with every trailing `Result` taken off, as many times as it ends in one.
pub open spec fn trim_results(text: Seq<char>) -> Seq<char>
    decreases text.len(),
{
    if text.len() >= 6 && text.subrange(text.len() - 6, text.len() as int) == "Result"@ {
        trim_results(text.subrange(0, text.len() - 6))
    } else {
        text
    }
}

fn ends_in_result_at(chars: &Vec<char>, end: usize) -> (found: bool)
    requires
        end <= chars.len(),
    ensures
        found == (end >= 6 && chars@.subrange(end - 6, end as int) == "Result"@),
{
    proof {
        reveal_strlit("Result");
    }
    if end < 6 {
        return false;
    }
    let found = chars[end - 6] == 'R' && chars[end - 5] == 'e' && chars[end - 4] == 's' && chars[end - 3] == 'u'
        && chars[end - 2] == 'l' && chars[end - 1] == 't';
    proof {
        if found {
            assert(chars@.subrange(end - 6, end as int) =~= "Result"@);
        } else if chars@.subrange(end - 6, end as int) == "Result"@ {
            assert(chars@.subrange(end - 6, end as int)[0] == 'R');
            assert(chars@.subrange(end - 6, end as int)[1] == 'e');
            assert(chars@.subrange(end - 6, end as int)[2] == 's');
            assert(chars@.subrange(end - 6, end as int)[3] == 'u');
            assert(chars@.subrange(end - 6, end as int)[4] == 'l');
            assert(chars@.subrange(end - 6, end as int)[5] == 't');
        }
    }
    found
}

/// `text` with every trailing `Result` taken off.
fn trimmed_of_results(text: &str) -> (trimmed: String)
    ensures
        trimmed@ == trim_results(text@),
{
    let n = text.unicode_len();
    let mut chars: Vec<char> = Vec::new();
    let mut i: usize = 0;
    while i < n
        invariant
            n == text@.len(),
            0 <= i <= n,
            chars@ == text@.take(i as int),
        decreases n - i,
    {
        chars.push(text.get_char(i));
        assert(chars@ =~= text@.take(i + 1));
        i += 1;
    }
    assert(chars@ =~= text@);
    let mut end: usize = n;
    while ends_in_result_at(&chars, end)
        invariant
            end <= chars.len(),
            trim_results(chars@.subrange(0, end as int)) == trim_results(text@),
        decreases end,
    {
        assert(chars@.subrange(0, end as int).subrange(end - 6, end as int) =~= chars@.subrange(end - 6, end as int));
        assert(chars@.subrange(0, end as int).subrange(0, end - 6) =~= chars@.subrange(0, end - 6));
        end -= 6;
    }
    proof {
        let t = chars@.subrange(0, end as int);
        if t.len() >= 6 {
            assert(t.subrange(t.len() - 6, t.len() as int) =~= chars@.subrange(end - 6, end as int));
        }
    }
    let mut trimmed = String::new();
    let mut j: usize = 0;
    while j < end
        invariant
            end <= chars.len(),
            0 <= j <= end,
            trimmed@ == chars@.subrange(0, j as int),
        decreases end - j,
    {
        push_char(&mut trimmed, chars[j]);
        assert(chars@.subrange(0, j + 1) =~= chars@.subrange(0, j as int).push(chars@[j as int]));
        j += 1;
    }
    trimmed
}

/// What one operation's implementation-side type is called: its result type's name with the
/// trailing `Result` turned into `Outcome`; a one-way operation has none.
pub open spec fn outcome_name_text(service: Seq<char>, operation: OperationDef) -> Option<Seq<char>> {
    if one_way(operation) {
        None
    } else {
        Some(trim_results(service + pascal_case(operation.ident@) + "Result"@) + "Outcome"@)
    }
}

fn outcome_name(service: &str, operation: &OperationDef) -> (name: Option<String>)
    ensures
        match name {
            Some(n) => outcome_name_text(service@, *operation) == Some(n@),
            None => outcome_name_text(service@, *operation) is None,
        },
{
    match operation.outcome {
        OperationOutcome::OneWay => None,
        OperationOutcome::Reply { .. } => {
            let mut published = service.to_owned();
            published.append(pascal_case_of_field(operation.ident.as_str()).as_str());
            published.append("Result");
            let mut name = trimmed_of_results(published.as_str());
            name.append("Outcome");
            Some(name)
        },
    }
}

/// The outcome type of an operation that answers: the value or the declared error, and no
/// fault; a unit success carries no value.
pub open spec fn outcome_type_text(service: Seq<char>, operation: OperationDef, recorded: Recorded) -> Option<Seq<char>> {
    match operation.outcome {
        OperationOutcome::OneWay => None,
        OperationOutcome::Reply { error, success } => {
            let published = outcome_name_text(service, operation)->0;
            let success_arm = if unit_type(success, recorded) {
                "{ ok: true }"@
            } else {
                "{ ok: true; value: "@ + ts_typename(success, recorded) + " }"@
            };
            Some(
                "/**\n * What an implementation of `"@ + operation.ts_name@ + "` on `"@ + service
                    + "` answers with: the value it declared, or\n * the error it declared.\n *\n * A fault is not among them. It reports a failure the operation never declared, and the two\n * places entitled to build one are both generated — the dispatcher and the client.\n */\nexport type "@
                    + published + " =\n  | "@ + success_arm + "\n  | { ok: false; error: "@ + ts_typename(error, recorded)
                    + " };"@,
            )
        },
    }
}

fn outcome_type(service: &str, operation: &OperationDef, recorded: &Recorded) -> (text: Option<String>)
    ensures
        match text {
            Some(t) => outcome_type_text(service@, *operation, *recorded) == Some(t@),
            None => outcome_type_text(service@, *operation, *recorded) is None,
        },
{
    match &operation.outcome {
        OperationOutcome::OneWay => None,
        OperationOutcome::Reply { error, success } => {
            let published = match outcome_name(service, operation) {
                Some(name) => name,
                None => {
                    return None;
                },
            };
            let success_arm = if is_unit_type(success, recorded) {
                String::from_str("{ ok: true }")
            } else {
                let mut arm = String::from_str("{ ok: true; value: ");
                arm.append(typescript_typename(success, recorded).as_str());
                arm.append(" }");
                arm
            };
            let mut text = String::from_str("/**\n * What an implementation of `");
            text.append(operation.ts_name.as_str());
            text.append("` on `");
            text.append(service);
            text.append(
                "` answers with: the value it declared, or\n * the error it declared.\n *\n * A fault is not among them. It reports a failure the operation never declared, and the two\n * places entitled to build one are both generated — the dispatcher and the client.\n */\nexport type ",
            );
            text.append(published.as_str());
            text.append(" =\n  | ");
            text.append(success_arm.as_str());
            text.append("\n  | { ok: false; error: ");
            text.append(typescript_typename(error, recorded).as_str());
            text.append(" };");
            Some(text)
        },
    }
}

/// One outcome type per operation that answers, in declaration order.
pub open spec fn outcome_types_text(service: Seq<char>, operations: Seq<OperationDef>, recorded: Recorded) -> Seq<Seq<char>>
    decreases operations.len(),
{
    if operations.len() == 0 {
        Seq::empty()
    } else {
        let before = outcome_types_text(service, operations.drop_last(), recorded);
        match outcome_type_text(service, operations.last(), recorded) {
            Some(text) => before.push(text),
            None => before,
        }
    }
}

fn outcome_types(service: &ServiceDef) -> (published: Vec<String>)
    ensures
        views(published@) == outcome_types_text(service.ident@, service.operations@, service.recorded),
{
    let named = service.ident.as_str();
    let mut published: Vec<String> = Vec::new();
    let mut i: usize = 0;
    while i < service.operations.len()
        invariant
            0 <= i <= service.operations.len(),
            named@ == service.ident@,
            views(published@) == outcome_types_text(named@, service.operations@.take(i as int), service.recorded),
        decreases service.operations.len() - i,
    {
        assert(service.operations@.take(i + 1).drop_last() =~= service.operations@.take(i as int));
        match outcome_type(named, &service.operations[i], &service.recorded) {
            Some(text) => {
                let ghost before = views(published@);
                published.push(text);
                assert(views(published@) =~= before.push(text@));
            },
            None => {},
        }
        i += 1;
    }
    assert(service.operations@.take(service.operations.len() as int) =~= service.operations@);
    published
}

/// The line of documentation an interface member carries.
pub open spec fn method_summary_text(service: Seq<char>, operation: OperationDef) -> Seq<char> {
    match operation.outcome {
        OperationOutcome::OneWay => "Handles `"@ + operation.wire_name@ + "` on `"@ + service + "`, which expects no reply."@,
        OperationOutcome::Reply { .. } => "Handles `"@ + operation.wire_name@ + "` on `"@ + service + "` and answers it."@,
    }
}

/// A member's parameters: the context, the message, then one argument per `header_in` binding and
/// one per `part` binding, named and typed as the `http_rest` client's own method takes them.
pub open spec fn interface_params_text(operation: OperationDef, recorded: Recorded) -> Seq<char> {
    join(
        seq!["ctx: Ctx"@, "req: "@ + typename_text(operation, recorded)] + binding_params_text(
            operation.http.header_in@,
            recorded,
        ) + binding_params_text(operation.http.multipart_parts@, recorded),
        ", "@,
    )
}

/// One interface member: its summary, then the method answering the operation's outcome (`void`
/// for a one-way operation).
pub open spec fn member_text(service: Seq<char>, operation: OperationDef, recorded: Recorded) -> Seq<char> {
    let answers = match outcome_name_text(service, operation) {
        Some(name) => name,
        None => "void"@,
    };
    "  /** "@ + method_summary_text(service, operation) + " */\n  "@ + operation.ts_name@ + "("@ + interface_params_text(
        operation,
        recorded,
    ) + "): Promise<"@ + answers + ">;"@
}

fn member(service: &str, operation: &OperationDef, recorded: &Recorded) -> (text: String)
    ensures
        text@ == member_text(service@, *operation, *recorded),
{
    let mut summary = String::from_str("Handles `");
    summary.append(operation.wire_name.as_str());
    summary.append("` on `");
    summary.append(service);
    match operation.outcome {
        OperationOutcome::OneWay => summary.append("`, which expects no reply."),
        OperationOutcome::Reply { .. } => summary.append("` and answers it."),
    }
    assert(summary@ == method_summary_text(service@, *operation));
    let mut text = String::from_str("  /** ");
    text.append(summary.as_str());
    text.append(" */\n  ");
    text.append(operation.ts_name.as_str());
    text.append("(");
    let mut params: Vec<String> = Vec::new();
    params.push(String::from_str("ctx: Ctx"));
    let mut req = String::from_str("req: ");
    req.append(typename(operation, recorded).as_str());
    params.push(req);
    assert(views(params@) =~= seq!["ctx: Ctx"@, "req: "@ + typename_text(*operation, *recorded)]);
    push_binding_params(&mut params, &operation.http.header_in, recorded);
    push_binding_params(&mut params, &operation.http.multipart_parts, recorded);
    text.append(join_all(&params, ", ").as_str());
    text.append("): Promise<");
    match outcome_name(service, operation) {
        Some(name) => text.append(name.as_str()),
        None => text.append("void"),
    }
    text.append(">;");
    text
}

/// The interface an implementation satisfies: one required member per operation.
pub open spec fn interface_text(service: ServiceDef) -> Seq<char> {
    let named = service.ident@;
    let methods = join(
        service.operations@.map_values(|operation: OperationDef| member_text(named, operation, service.recorded)),
        "\n"@,
    );
    "/**\n * What a `"@ + named
        + "` implementation satisfies, in full or not at all.\n *\n * Every operation the service declares is a required member, so an implementation missing one\n * is refused where it reaches `create"@
        + named
        + "Dispatcher`. Adding an operation breaks every\n * implementation until each one handles it, which is what the interface is for.\n *\n * The context is the implementation's own type, constructed per message by whatever owns the\n * transport. It reaches no message and no schema.\n *\n * A bound `header_in` or `part(...)` binding adds one more argument after the message, in\n * declaration order, named and typed exactly as `create"@
        + named
        + "HttpClient`'s own method takes\n * it: the dispatcher decodes and refuses it the same way it does the message, so an argument\n * an implementation reads here is as trustworthy as `req` is.\n */\nexport interface "@
        + named + "Impl<Ctx> {\n"@ + methods + "\n}"@
}

fn interface(service: &ServiceDef) -> (text: String)
    ensures
        text@ == interface_text(*service),
{
    let named = service.ident.as_str();
    let ghost all = service.operations@.map_values(
        |operation: OperationDef| member_text(named@, operation, service.recorded),
    );
    let mut members: Vec<String> = Vec::new();
    let mut i: usize = 0;
    while i < service.operations.len()
        invariant
            0 <= i <= service.operations.len(),
            named@ == service.ident@,
            all == service.operations@.map_values(
                |operation: OperationDef| member_text(named@, operation, service.recorded),
            ),
            views(members@) == all.take(i as int),
        decreases service.operations.len() - i,
    {
        let one = member(named, &service.operations[i], &service.recorded);
        let ghost before = views(members@);
        members.push(one);
        assert(views(members@) =~= before.push(one@));
        assert(all.take(i + 1) =~= all.take(i as int).push(all[i as int]));
        i += 1;
    }
    assert(all.take(service.operations.len() as int) =~= all);
    let mut text = String::from_str("/**\n * What a `");
    text.append(named);
    text.append(
        "` implementation satisfies, in full or not at all.\n *\n * Every operation the service declares is a required member, so an implementation missing one\n * is refused where it reaches `create",
    );
    text.append(named);
    text.append(
        "Dispatcher`. Adding an operation breaks every\n * implementation until each one handles it, which is what the interface is for.\n *\n * The context is the implementation's own type, constructed per message by whatever owns the\n * transport. It reaches no message and no schema.\n *\n * A bound `header_in` or `part(...)` binding adds one more argument after the message, in\n * declaration order, named and typed exactly as `create",
    );
    text.append(named);
    text.append(
        "HttpClient`'s own method takes\n * it: the dispatcher decodes and refuses it the same way it does the message, so an argument\n * an implementation reads here is as trustworthy as `req` is.\n */\nexport interface ",
    );
    text.append(named);
    text.append("Impl<Ctx> {\n");
    text.append(join_all(&members, "\n").as_str());
    text.append("\n}");
    text
}

/// What the dispatcher answers a request with: the envelope and the headers beside it.
pub open spec fn dispatched_type_text(named: Seq<char>) -> Seq<char> {
    "/**\n * What a `"@ + named
        + "` dispatcher answers a request with: the envelope that goes on the wire —\n * the operation's own result envelope, or a fault framed inside a failure arm — and the headers\n * written beside it, each value JSON-encoded. A transport writes both: a `ws_rpc` reply frame\n * under `headers`, an AMQP reply as the message's own headers.\n */\nexport type "@
        + named + "Dispatched = {\n  answered: unknown;\n  headers: ReadonlyArray<readonly [string, string]>;\n};"@
}

fn dispatched_type(named: &str) -> (text: String)
    ensures
        text@ == dispatched_type_text(named@),
{
    let mut text = String::from_str("/**\n * What a `");
    text.append(named);
    text.append(
        "` dispatcher answers a request with: the envelope that goes on the wire —\n * the operation's own result envelope, or a fault framed inside a failure arm — and the headers\n * written beside it, each value JSON-encoded. A transport writes both: a `ws_rpc` reply frame\n * under `headers`, an AMQP reply as the message's own headers.\n */\nexport type ",
    );
    text.append(named);
    text.append("Dispatched = {\n  answered: unknown;\n  headers: ReadonlyArray<readonly [string, string]>;\n};");
    text
}

/// How a fault reaches a caller: inside the failure arm, with no header beside it.
pub open spec fn framed_text(named: Seq<char>, prefix: Seq<char>) -> Seq<char> {
    "/**\n * How a fault reaches a caller: inside the failure arm, behind the literal a caller in\n * either language narrows on, with no header beside it. It is the shape every `"@
        + named
        + "`\n * result type declares, and the shape the Rust dispatcher's transport frames.\n */\nfunction "@
        + prefix + "Framed(fault: "@ + named + "Fault): "@ + named
        + "Dispatched {\n  return { answered: { ok: false, error: { isServiceFault: true, fault } }, headers: [] };\n}"@
}

/// The members of the fault an unknown operation name produces.
pub open spec fn unknown_members_text() -> Seq<char> {
    "    detail: \"the service answers to no operation by that name\",\n    field: undefined,\n    kind: \"unknown-operation\",\n    operation,"@
}

/// The fault an operation name the service does not answer to produces.
pub open spec fn unknown_operation_text(named: Seq<char>, prefix: Seq<char>) -> Seq<char> {
    "/**\n * The fault an operation name nothing on `"@ + named
        + "` answers to produces. The name is the\n * one that arrived, not one the service declares.\n */\nfunction "@
        + prefix + "UnknownOperation(operation: string): "@ + named + "Fault {\n"@ + minted_text(
        named,
        unknown_members_text(),
    ) + "\n}"@
}

/// The members of the fault a payload failing its schema produces.
pub open spec fn inbound_members_text() -> Seq<char> {
    "    detail: issues\n      .map((issue) =>\n        issue.path.length === 0 ? issue.message : `'${issue.path.join(\".\")}': ${issue.message}`,\n      )\n      .join(\"; \"),\n    field: failedAt === \"\" ? undefined : failedAt,\n    kind: \"failed-validation\",\n    operation,"@
}

/// The fault a payload that will not become the operation's message produces.
pub open spec fn inbound_fault_text(named: Seq<char>, prefix: Seq<char>) -> Seq<char> {
    "/**\n * The fault a payload produces when it will not become the operation's message.\n *\n * The payload reaching here was already read out of the bytes, so what is wrong with it is\n * what it *said* — the same thing the Rust dispatcher answers `failed-validation` for. Bytes\n * that are no document at all never reach this, and are the other kind.\n *\n * The fault names the key the failure was at. A failure at no key names none: a value that\n * is not an object is not this message, and there is no key to send a caller to.\n */\nfunction "@
        + prefix
        + "InboundFault(\n  operation: string,\n  issues: ReadonlyArray<{ path: ReadonlyArray<PropertyKey>; message: string }>,\n): "@
        + named + "Fault {\n  const [first] = issues;\n  const failedAt = first === undefined ? \"\" : first.path.join(\".\");\n"@
        + minted_text(named, inbound_members_text()) + "\n}"@
}

/// Reads one `header_in` value off the JSON text the transport handed over, checked against the
/// header's own schema.
pub open spec fn request_header_text(named: Seq<char>, prefix: Seq<char>) -> Seq<char> {
    "/**\n * Reads one `header_in` value off the JSON text the transport handed over, checked against\n * the header's own schema. An absent header reads as `undefined`, which only an optional\n * binding accepts.\n */\nfunction "@
        + prefix
        + "RequestHeader<Parsed>(\n  operation: string,\n  headers: ReadonlyArray<readonly [string, string]>,\n  name: string,\n  schema: ZodType<Parsed>,\n): { ok: true; value: Parsed } | { ok: false; fault: "@
        + named
        + "Fault } {\n  const carried = headers.find(([candidate]) => candidate.toLowerCase() === name.toLowerCase())?.[1];\n  let issues: ReadonlyArray<{ path: ReadonlyArray<PropertyKey>; message: string }>;\n  try {\n    const parsed = schema.safeParse(carried === undefined ? undefined : JSON.parse(carried));\n    if (parsed.success) return { ok: true, value: parsed.data };\n    issues = carried === undefined\n      ? [{ path: [name], message: \"a required header was not carried\" }]\n      : parsed.error.issues.map((issue) => ({ path: [name, ...issue.path], message: issue.message }));\n  } catch (rejected) {\n    issues = [{ path: [name], message: String(rejected) }];\n  }\n  return { ok: false, fault: "@
        + prefix + "InboundFault(operation, issues) };\n}"@
}

/// The readers the dispatcher answers through: the framing, the unknown operation's fault, the
/// failed payload's fault, and the header reader where an operation binds a header.
pub open spec fn fault_helpers_text(service: ServiceDef) -> Seq<Seq<char>> {
    let named = service.ident@;
    let prefix = lower_first(named);
    let readers = seq![framed_text(named, prefix), unknown_operation_text(named, prefix), inbound_fault_text(named, prefix)];
    if any_header_in(service.operations@) {
        readers.push(request_header_text(named, prefix))
    } else {
        readers
    }
}

fn fault_helpers(service: &ServiceDef) -> (helpers: Vec<String>)
    ensures
        views(helpers@) == fault_helpers_text(*service),
{
    let named = service.ident.as_str();
    let prefix = camel_case_of_variant(named);
    let prefix = prefix.as_str();
    let mut framed = String::from_str(
        "/**\n * How a fault reaches a caller: inside the failure arm, behind the literal a caller in\n * either language narrows on, with no header beside it. It is the shape every `",
    );
    framed.append(named);
    framed.append("`\n * result type declares, and the shape the Rust dispatcher's transport frames.\n */\nfunction ");
    framed.append(prefix);
    framed.append("Framed(fault: ");
    framed.append(named);
    framed.append("Fault): ");
    framed.append(named);
    framed.append(
        "Dispatched {\n  return { answered: { ok: false, error: { isServiceFault: true, fault } }, headers: [] };\n}",
    );
    let mut unknown = String::from_str("/**\n * The fault an operation name nothing on `");
    unknown.append(named);
    unknown.append("` answers to produces. The name is the\n * one that arrived, not one the service declares.\n */\nfunction ");
    unknown.append(prefix);
    unknown.append("UnknownOperation(operation: string): ");
    unknown.append(named);
    unknown.append("Fault {\n");
    unknown.append(
        minted(
            named,
            "    detail: \"the service answers to no operation by that name\",\n    field: undefined,\n    kind: \"unknown-operation\",\n    operation,",
        ).as_str(),
    );
    unknown.append("\n}");
    let mut inbound = String::from_str(
        "/**\n * The fault a payload produces when it will not become the operation's message.\n *\n * The payload reaching here was already read out of the bytes, so what is wrong with it is\n * what it *said* — the same thing the Rust dispatcher answers `failed-validation` for. Bytes\n * that are no document at all never reach this, and are the other kind.\n *\n * The fault names the key the failure was at. A failure at no key names none: a value that\n * is not an object is not this message, and there is no key to send a caller to.\n */\nfunction ",
    );
    inbound.append(prefix);
    inbound.append(
        "InboundFault(\n  operation: string,\n  issues: ReadonlyArray<{ path: ReadonlyArray<PropertyKey>; message: string }>,\n): ",
    );
    inbound.append(named);
    inbound.append("Fault {\n  const [first] = issues;\n  const failedAt = first === undefined ? \"\" : first.path.join(\".\");\n");
    inbound.append(
        minted(
            named,
            "    detail: issues\n      .map((issue) =>\n        issue.path.length === 0 ? issue.message : `'${issue.path.join(\".\")}': ${issue.message}`,\n      )\n      .join(\"; \"),\n    field: failedAt === \"\" ? undefined : failedAt,\n    kind: \"failed-validation\",\n    operation,",
        ).as_str(),
    );
    inbound.append("\n}");
    let mut helpers: Vec<String> = Vec::new();
    helpers.push(framed);
    helpers.push(unknown);
    helpers.push(inbound);
    if has_header_in(service) {
        let mut reader = String::from_str(
            "/**\n * Reads one `header_in` value off the JSON text the transport handed over, checked against\n * the header's own schema. An absent header reads as `undefined`, which only an optional\n * binding accepts.\n */\nfunction ",
        );
        reader.append(prefix);
        reader.append(
            "RequestHeader<Parsed>(\n  operation: string,\n  headers: ReadonlyArray<readonly [string, string]>,\n  name: string,\n  schema: ZodType<Parsed>,\n): { ok: true; value: Parsed } | { ok: false; fault: ",
        );
        reader.append(named);
        reader.append(
            "Fault } {\n  const carried = headers.find(([candidate]) => candidate.toLowerCase() === name.toLowerCase())?.[1];\n  let issues: ReadonlyArray<{ path: ReadonlyArray<PropertyKey>; message: string }>;\n  try {\n    const parsed = schema.safeParse(carried === undefined ? undefined : JSON.parse(carried));\n    if (parsed.success) return { ok: true, value: parsed.data };\n    issues = carried === undefined\n      ? [{ path: [name], message: \"a required header was not carried\" }]\n      : parsed.error.issues.map((issue) => ({ path: [name, ...issue.path], message: issue.message }));\n  } catch (rejected) {\n    issues = [{ path: [name], message: String(rejected) }];\n  }\n  return { ok: false, fault: ",
        );
        reader.append(prefix);
        reader.append("InboundFault(operation, issues) };\n}");
        helpers.push(reader);
    }
    assert(views(helpers@) =~= fault_helpers_text(*service));
    helpers
}

/// Everything the service side publishes, in the order a bundle reads it: the outcome types, the
/// interface, the dispatched envelope, the fault readers, then the dispatcher.
pub open spec fn service_side_text(service: ServiceDef) -> Seq<Seq<char>> {
    outcome_types_text(service.ident@, service.operations@, service.recorded) + seq![
        interface_text(service),
        dispatched_type_text(service.ident@),
    ] + fault_helpers_text(service) + seq![dispatcher_text(service)]
}

pub fn emit(service: &ServiceDef) -> (published: Vec<String>)
    ensures
        views(published@) == service_side_text(*service),
{
    let mut published = outcome_types(service);
    published.push(interface(service));
    published.push(dispatched_type(service.ident.as_str()));
    let ghost head = views(published@);
    let mut helpers = fault_helpers(service);
    let ghost helper_views = views(helpers@);
    published.append(&mut helpers);
    assert(views(published@) =~= head + helper_views);
    let ghost before = views(published@);
    let d = dispatcher(service);
    published.push(d);
    assert(views(published@) =~= before.push(d@));
    assert(views(published@) =~= service_side_text(*service));
    published
}

} // verus!
