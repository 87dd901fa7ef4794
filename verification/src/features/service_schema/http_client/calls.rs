//! The TypeScript `http_rest` client's type, with one member per operation, and the factory that
//! binds a transport and answers one method per operation: validate, build the request, send, and
//! read the answer by status.
use super::request::{
    body_build_stmt, body_build_text, header_in_build_stmt, header_in_build_text, method_doc, method_doc_text,
    method_params, method_params_text, multipart_parts_build_stmt, parts_build_text, path_build_stmt, path_build_text,
    query_build_stmt, query_build_text, validation_stmt, validation_text,
};
use super::response::{decode_stmt, decode_text, send_stmt, send_text};
use crate::features::service_schema::client::{answers, answers_text};
use crate::field_type::Recorded;
use crate::rename_rule::{camel_case_of_variant, lower_first};
use crate::service_def::{any_body, declares_body, BodyKind, OperationDef, ServiceDef};
use crate::text::{join, join_all, views};
use vstd::prelude::*;

verus! {

/// One member of the client type: its documentation line, then the method with the message and
/// its bound arguments, answering the operation's result.
pub open spec fn member_text(named: Seq<char>, operation: OperationDef, recorded: Recorded) -> Seq<char> {
    method_doc_text(operation) + "\n  "@ + operation.ts_name@ + "("@ + method_params_text(operation, recorded)
        + "): Promise<"@ + answers_text(named, operation) + ">;"@
}

fn member(named: &str, operation: &OperationDef, recorded: &Recorded) -> (text: String)
    ensures
        text@ == member_text(named@, *operation, *recorded),
{
    let mut text = method_doc(operation);
    text.append("\n  ");
    text.append(operation.ts_name.as_str());
    text.append("(");
    text.append(method_params(operation, recorded).as_str());
    text.append("): Promise<");
    text.append(answers(named, operation).as_str());
    text.append(">;");
    text
}

/// The client type: one member per operation, in declaration order.
pub open spec fn client_type_text(service: ServiceDef) -> Seq<char> {
    let named = service.ident@;
    let members = join(
        service.operations@.map_values(|operation: OperationDef| member_text(named, operation, service.recorded)),
        "\n"@,
    );
    "/**\n * A `"@ + named
        + "` caller over `http_rest`.\n *\n * Every operation the service declares has a method here, taking that operation's own message\n * plus one extra argument per `header_in` binding. A request-and-reply operation answers its\n * own result type; a one-way operation answers nothing beyond the send and throws instead\n * of returning a fault it has nowhere to put.\n */\nexport type "@
        + named + "HttpClient = {\n"@ + members + "\n};"@
}

pub fn client_type(service: &ServiceDef) -> (text: String)
    ensures
        text@ == client_type_text(*service),
{
    let named = service.ident.as_str();
    let ghost all = service.operations@.map_values(
        |operation: OperationDef| member_text(named@, operation, service.recorded),
    );
    let mut members: Vec<String> = Vec::new();
    let mut i: usize = 0;
    while i < service.operations.len()
        invariant
            0 <= i <= service.operations.len(),
            all == service.operations@.map_values(
                |operation: OperationDef| member_text(named@, operation, service.recorded),
            ),
            views(members@) == all.take(i as int),
        decreases service.operations.len() - i,
    {
        let one = member(named, &service.operations[i], &service.recorded);
        let ghost before = views(members@);
        members.push(one);
        assert(views(members@) =~= before.push(one@));
        assert(all.take(i + 1) =~= all.take(i as int).push(all[i as int]));
        i += 1;
    }
    assert(all.take(service.operations.len() as int) =~= all);
    let mut text = String::from_str("/**\n * A `");
    text.append(named);
    text.append(
        "` caller over `http_rest`.\n *\n * Every operation the service declares has a method here, taking that operation's own message\n * plus one extra argument per `header_in` binding. A request-and-reply operation answers its\n * own result type; a one-way operation answers nothing beyond the send and throws instead\n * of returning a fault it has nowhere to put.\n */\nexport type ",
    );
    text.append(named);
    text.append("HttpClient = {\n");
    text.append(join_all(&members, "\n").as_str());
    text.append("\n};");
    text
}

/// One method on the factory's returned object: validate the message, build the request from the
/// validated message, send it, and read the answer by status.
#[verifier::opaque]
pub open spec fn method_text(
    named: Seq<char>,
    operation: OperationDef,
    recorded: Recorded,
    default_status: u16,
    has_multipart: bool,
) -> Seq<char> {
    let prefix = lower_first(named);
    "    async "@ + operation.ts_name@ + "("@ + method_params_text(operation, recorded) + ") {\n"@ + validation_text(
        prefix,
        operation,
        recorded,
    ) + "      const sending = validated.data;\n"@ + path_build_text(operation) + query_build_text(operation)
        + header_in_build_text(operation.http) + body_build_text(operation.http) + parts_build_text(
        operation,
        has_multipart,
    ) + send_text(prefix, operation, has_multipart) + decode_text(prefix, operation, default_status, recorded) + "},"@
}

pub fn method(named: &str, operation: &OperationDef, recorded: &Recorded, default_status: u16, has_multipart: bool) -> (text: String)
    ensures
        text@ == method_text(named@, *operation, *recorded, default_status, has_multipart),
{
    let prefix = camel_case_of_variant(named);
    let prefix = prefix.as_str();
    let mut text = String::from_str("    async ");
    text.append(operation.ts_name.as_str());
    text.append("(");
    text.append(method_params(operation, recorded).as_str());
    text.append(") {\n");
    text.append(validation_stmt(prefix, operation, recorded).as_str());
    text.append("      const sending = validated.data;\n");
    text.append(path_build_stmt(operation).as_str());
    text.append(query_build_stmt(operation).as_str());
    text.append(header_in_build_stmt(&operation.http).as_str());
    text.append(body_build_stmt(&operation.http).as_str());
    text.append(multipart_parts_build_stmt(operation, has_multipart).as_str());
    text.append(send_stmt(prefix, operation, has_multipart).as_str());
    text.append(decode_stmt(prefix, operation, default_status, recorded).as_str());
    text.append("},");
    proof {
        reveal(method_text);
    }
    text
}

/// Every method of the factory's returned object, one per operation in declaration order.
pub open spec fn methods_text(service: ServiceDef) -> Seq<Seq<char>> {
    let has_multipart = any_body(service.operations@, BodyKind::Multipart);
    service.operations@.map_values(
        |operation: OperationDef|
            method_text(service.ident@, operation, service.recorded, service.default_error_status, has_multipart),
    )
}

/// The factory: it binds a transport and answers the client.
pub open spec fn factory_text(service: ServiceDef) -> Seq<char> {
    let named = service.ident@;
    "/**\n * Binds a `"@ + named + "` client to an `http_rest` transport.\n */\nexport function create"@ + named
        + "HttpClient(\n  transport: "@ + named + "HttpTransport,\n): "@ + named + "HttpClient {\n  return {\n"@
        + join(methods_text(service), "\n"@) + "\n  };\n}"@
}

pub fn factory(service: &ServiceDef) -> (text: String)
    ensures
        text@ == factory_text(*service),
{
    let named = service.ident.as_str();
    let has_multipart = declares_body(service, BodyKind::Multipart);
    let ghost all = methods_text(*service);
    let mut methods: Vec<String> = Vec::new();
    let mut i: usize = 0;
    while i < service.operations.len()
        invariant
            0 <= i <= service.operations.len(),
            has_multipart == any_body(service.operations@, BodyKind::Multipart),
            named@ == service.ident@,
            all == methods_text(*service),
            views(methods@) == all.take(i as int),
        decreases service.operations.len() - i,
    {
        let one = method(named, &service.operations[i], &service.recorded, service.default_error_status, has_multipart);
        assert(all[i as int] == one@);
        let ghost before = views(methods@);
        methods.push(one);
        assert(views(methods@) =~= before.push(one@));
        assert(all.take(i + 1) =~= all.take(i as int).push(all[i as int]));
        i += 1;
    }
    assert(all.take(service.operations.len() as int) =~= all);
    let mut text = String::from_str("/**\n * Binds a `");
    text.append(named);
    text.append("` client to an `http_rest` transport.\n */\nexport function create");
    text.append(named);
    text.append("HttpClient(\n  transport: ");
    text.append(named);
    text.append("HttpTransport,\n): ");
    text.append(named);
    text.append("HttpClient {\n  return {\n");
    text.append(join_all(&methods, "\n").as_str());
    text.append("\n  };\n}");
    text
}

} // verus!
