//! The Dart `http_rest` client's seam, its refusal, the client class with one method per
//! operation, the type a reply's success is answered as, and the private helpers every method
//! reaches for.
use super::request::{
    body_build_stmt, body_build_text, header_in_build_stmt, header_in_build_text, method_params, method_params_text,
    multipart_parts_build_stmt, parts_build_text, path_build_stmt, path_build_text, query_build_stmt, query_build_text,
};
use super::response::{
    find_header_call, find_header_text, one_way_decode_stmt, one_way_decode_text, reply_decode_stmt, reply_decode_text,
    response_record_text, send_one_way_text, send_reply_text, send_stmt_one_way, send_stmt_reply,
};
use crate::features::dart::{dart_type, dart_typename, DartNames};
use crate::features::service_schema::fault::{fault_fields_typescript_name, fields_name};
use crate::features::service_schema::kotlin_http_client::request::{method_doc, method_doc_text};
use crate::features::service_schema::kotlin_ws_client::{any_header_in, declares_header_in};
use crate::features::service_schema::result::{result_name, result_name_text, tuple_elements};
use crate::field_type::{is_unit_type, unit_type, FieldDef, FieldDefType, Recorded};
use crate::service_def::{method_name, BodyKind, HttpShape, OperationDef, OperationOutcome, ServiceDef};
use crate::text::{join, join_all, views};
use vstd::prelude::*;

verus! {

/// The request record every service's `send` takes.
pub open spec fn request_record_text() -> Seq<char> {
    "{String method, String path, String query, List<(String, String)> headers, List<int> body, List<(String, dynamic)> parts}"@
}

/// The abstract transport a hand-written implementation over any HTTP stack fills in.
pub open spec fn transport_seam_text(named: Seq<char>) -> Seq<char> {
    "/// What binds a `"@ + named
        + "` Dart client to a real HTTP stack.\n///\n/// The request and response are Dart records, not named classes: every service's own\n/// `send` reads the exact same anonymous shape, so one hand-written implementation over\n/// any HTTP stack satisfies every service's interface.\nabstract class "@
        + named + "HttpTransport {\n  Future<("@ + response_record_text() + ")> send(\n    ("@ + request_record_text()
        + ") request,\n  );\n}"@
}

pub fn transport_seam(named: &str) -> (text: String)
    ensures
        text@ == transport_seam_text(named@),
{
    let mut text = String::from_str("/// What binds a `");
    text.append(named);
    text.append(
        "` Dart client to a real HTTP stack.\n///\n/// The request and response are Dart records, not named classes: every service's own\n/// `send` reads the exact same anonymous shape, so one hand-written implementation over\n/// any HTTP stack satisfies every service's interface.\nabstract class ",
    );
    text.append(named);
    text.append("HttpTransport {\n  Future<(");
    text.append("{int status, List<(String, String)> headers, List<int> body, Stream<List<int>> bodyStream}");
    text.append(")> send(\n    (");
    text.append(
        "{String method, String path, String query, List<(String, String)> headers, List<int> body, List<(String, dynamic)> parts}",
    );
    text.append(") request,\n  );\n}");
    text
}

/// What a one-way method throws when it cannot answer its declared status.
pub open spec fn refusal_class_text(named: Seq<char>) -> Seq<char> {
    "/// What a one-way `"@ + named
        + "` `http_rest` method throws when it cannot answer its declared\n/// status. A one-way operation declares no error, so there is nothing else to throw.\nclass "@
        + named + "HttpRefusal implements Exception {\n  "@ + named + "HttpRefusal(this.fault);\n  final "@
        + fields_name(named) + " fault;\n  @override\n  String toString() =>\n      '"@ + named
        + "HttpRefusal: ${fault.kind} in `${fault.operation}`: ${fault.detail}';\n}"@
}

pub fn refusal_class(named: &str) -> (text: String)
    ensures
        text@ == refusal_class_text(named@),
{
    let fields = fault_fields_typescript_name(named);
    let mut text = String::from_str("/// What a one-way `");
    text.append(named);
    text.append(
        "` `http_rest` method throws when it cannot answer its declared\n/// status. A one-way operation declares no error, so there is nothing else to throw.\nclass ",
    );
    text.append(named);
    text.append("HttpRefusal implements Exception {\n  ");
    text.append(named);
    text.append("HttpRefusal(this.fault);\n  final ");
    text.append(fields.as_str());
    text.append(" fault;\n  @override\n  String toString() =>\n      '");
    text.append(named);
    text.append("HttpRefusal: ${fault.kind} in `${fault.operation}`: ${fault.detail}';\n}");
    text
}

/// The record a streamed success answers: the range it carries, if any, and the body stream.
pub open spec fn streamed_answer_text() -> Seq<char> {
    "({String? contentRange, Stream<List<int>> body})"@
}

/// A streamed success's Dart type: the streamed record, in a tuple with one more element per
/// declared response header.
pub open spec fn stream_success_text(shape: HttpShape, success: FieldDef, names: DartNames) -> Seq<char> {
    if shape.header_out@.len() == 0 {
        streamed_answer_text()
    } else {
        let elements = tuple_elements(success);
        let rest = if elements.len() > 0 {
            elements.drop_first()
        } else {
            elements
        };
        "("@ + join(seq![streamed_answer_text()] + rest.map_values(|element: FieldDef| dart_type(element, names)), ", "@)
            + ")"@
    }
}

fn stream_success_dart_type(shape: &HttpShape, success: &FieldDef, names: &DartNames) -> (text: String)
    ensures
        text@ == stream_success_text(*shape, *success, *names),
{
    if shape.header_out.len() == 0 {
        return String::from_str("({String? contentRange, Stream<List<int>> body})");
    }
    let no_elements: Vec<FieldDef> = Vec::new();
    let elements = match &success.field_type {
        FieldDefType::Tuple(elements) => elements,
        _ => &no_elements,
    };
    assert(elements@ == tuple_elements(*success));
    let ghost rest = if elements@.len() > 0 {
        elements@.drop_first()
    } else {
        elements@
    };
    let mut parts: Vec<String> = Vec::new();
    parts.push(String::from_str("({String? contentRange, Stream<List<int>> body})"));
    let ghost head = seq![streamed_answer_text()];
    assert(views(parts@) =~= head);
    let mut i: usize = 1;
    while i < elements.len()
        invariant
            1 <= i,
            i <= elements.len() || elements.len() == 0,
            elements.len() == 0 ==> i == 1,
            elements@ == tuple_elements(*success),
            rest == (if elements@.len() > 0 {
                elements@.drop_first()
            } else {
                elements@
            }),
            views(parts@) == head + rest.take(i - 1).map_values(|element: FieldDef| dart_type(element, *names)),
        decreases elements.len() - i,
    {
        let ty = dart_typename(&elements[i], names);
        let ghost before = views(parts@);
        parts.push(ty);
        proof {
            assert(views(parts@) =~= before.push(ty@));
            assert(rest[i - 1] == elements@[i as int]);
            assert(rest.take(i as int).map_values(|element: FieldDef| dart_type(element, *names)) =~= rest.take(
                i - 1,
            ).map_values(|element: FieldDef| dart_type(element, *names)).push(ty@));
        }
        i += 1;
    }
    proof {
        if elements.len() > 0 {
            assert(rest.take(i - 1) =~= rest);
        } else {
            assert(rest.take(i - 1) =~= rest);
        }
    }
    let mut text = String::from_str("(");
    text.append(join_all(&parts, ", ").as_str());
    text.append(")");
    text
}

/// The Dart type a reply operation's success is answered as: its bytes, its streamed record, or
/// its body (with each declared response header); `void` for a one-way operation or a unit
/// success with nothing beside it.
pub open spec fn success_type_text(operation: OperationDef, recorded: Recorded, names: DartNames) -> Seq<char> {
    match operation.outcome {
        OperationOutcome::OneWay => "void"@,
        OperationOutcome::Reply { success, .. } => if operation.http.body_kind == BodyKind::Bytes {
            dart_type(success, names)
        } else if operation.http.body_kind == BodyKind::Stream {
            stream_success_text(operation.http, success, names)
        } else if operation.http.header_out@.len() == 0 && unit_type(success, recorded) {
            "void"@
        } else {
            dart_type(success, names)
        },
    }
}

pub fn dart_success_type(operation: &OperationDef, recorded: &Recorded, names: &DartNames) -> (text: String)
    ensures
        text@ == success_type_text(*operation, *recorded, *names),
{
    match &operation.outcome {
        OperationOutcome::OneWay => String::from_str("void"),
        OperationOutcome::Reply { success, .. } => if operation.http.body_kind == BodyKind::Bytes {
            dart_typename(success, names)
        } else if operation.http.body_kind == BodyKind::Stream {
            stream_success_dart_type(&operation.http, success, names)
        } else if operation.http.header_out.len() == 0 && is_unit_type(success, recorded) {
            String::from_str("void")
        } else {
            dart_typename(success, names)
        },
    }
}

/// One method: its documentation line, its signature, then the statements that build the
/// request, send it, and read the answer.
#[verifier::opaque]
pub open spec fn method_text(
    named: Seq<char>,
    fn_prefix: Seq<char>,
    operation: OperationDef,
    default_status: u16,
    recorded: Recorded,
    names: DartNames,
) -> Seq<char> {
    let wire = operation.wire_name@;
    let method = method_name(operation.http.method);
    let (answers, send, decode) = match operation.outcome {
        OperationOutcome::OneWay => (
            "Future<void>"@,
            send_one_way_text(named, fn_prefix, wire, method),
            one_way_decode_text(named, fn_prefix, operation.http.ok_status, wire),
        ),
        OperationOutcome::Reply { error, success } => {
            let result = result_name_text(named, operation)->0;
            (
                "Future<"@ + result + ">"@,
                send_reply_text(result, fn_prefix, wire, method),
                reply_decode_text(result, fn_prefix, wire, operation.http, error, success, default_status, recorded, names),
            )
        },
    };
    method_doc_text(operation) + "\n  "@ + answers + " "@ + operation.ts_name@ + "("@ + method_params_text(
        operation,
        names,
    ) + ") async {\n"@ + path_build_text(operation) + query_build_text(operation) + header_in_build_text(
        named,
        fn_prefix,
        operation,
    ) + body_build_text(operation.http) + parts_build_text(operation) + send + decode + "  }"@
}

#[verifier::spinoff_prover]
pub fn method(
    named: &str,
    fn_prefix: &str,
    operation: &OperationDef,
    default_status: u16,
    recorded: &Recorded,
    names: &DartNames,
) -> (text: String)
    ensures
        text@ == method_text(named@, fn_prefix@, *operation, default_status, *recorded, *names),
{
    let wire = operation.wire_name.as_str();
    let method = operation.http.method.name();
    let (answers, send, decode) = match &operation.outcome {
        OperationOutcome::OneWay => (
            String::from_str("Future<void>"),
            send_stmt_one_way(named, fn_prefix, wire, method),
            one_way_decode_stmt(named, fn_prefix, operation.http.ok_status, wire),
        ),
        OperationOutcome::Reply { error, success } => {
            let result = match result_name(named, operation) {
                Some(result) => result,
                None => String::new(),
            };
            let mut answers = String::from_str("Future<");
            answers.append(result.as_str());
            answers.append(">");
            let send = send_stmt_reply(result.as_str(), fn_prefix, wire, method);
            let decode = reply_decode_stmt(
                result.as_str(),
                fn_prefix,
                wire,
                &operation.http,
                error,
                success,
                default_status,
                recorded,
                names,
            );
            (answers, send, decode)
        },
    };
    let mut text = method_doc(operation);
    text.append("\n  ");
    text.append(answers.as_str());
    text.append(" ");
    text.append(operation.ts_name.as_str());
    text.append("(");
    text.append(method_params(operation, names).as_str());
    text.append(") async {\n");
    text.append(path_build_stmt(operation).as_str());
    text.append(query_build_stmt(operation).as_str());
    text.append(header_in_build_stmt(named, fn_prefix, operation).as_str());
    text.append(body_build_stmt(&operation.http).as_str());
    text.append(multipart_parts_build_stmt(operation).as_str());
    text.append(send.as_str());
    text.append(decode.as_str());
    text.append("  }");
    proof {
        reveal(method_text);
    }
    text
}

/// The client class: the constructor taking the transport, then one method per operation.
pub open spec fn client_class_text(service: ServiceDef, names: DartNames) -> Seq<char> {
    let named = service.ident@;
    let fn_prefix = crate::rename_rule::lower_first(named);
    let methods = service.operations@.map_values(
        |operation: OperationDef|
            method_text(named, fn_prefix, operation, service.default_error_status, service.recorded, names),
    );
    "/// A `"@ + named + "` caller over `http_rest`.\nclass "@ + named + "HttpClient {\n  "@ + named
        + "HttpClient(this._transport);\n  final "@ + named + "HttpTransport _transport;\n\n"@ + join(methods, "\n\n"@)
        + "\n}"@
}

pub fn client_class(service: &ServiceDef, names: &DartNames) -> (text: String)
    ensures
        text@ == client_class_text(*service, *names),
{
    let named = service.ident.as_str();
    let fn_prefix = crate::rename_rule::camel_case_of_variant(named);
    let mut methods: Vec<String> = Vec::new();
    let mut i: usize = 0;
    while i < service.operations.len()
        invariant
            0 <= i <= service.operations.len(),
            named@ == service.ident@,
            fn_prefix@ == crate::rename_rule::lower_first(service.ident@),
            views(methods@) == service.operations@.take(i as int).map_values(
                |operation: OperationDef|
                    method_text(
                        service.ident@,
                        crate::rename_rule::lower_first(service.ident@),
                        operation,
                        service.default_error_status,
                        service.recorded,
                        *names,
                    ),
            ),
        decreases service.operations.len() - i,
    {
        let one = method(
            named,
            fn_prefix.as_str(),
            &service.operations[i],
            service.default_error_status,
            &service.recorded,
            names,
        );
        let ghost before = views(methods@);
        methods.push(one);
        proof {
            assert(views(methods@) =~= before.push(one@));
            assert(service.operations@.take(i + 1).map_values(
                |operation: OperationDef|
                    method_text(
                        service.ident@,
                        crate::rename_rule::lower_first(service.ident@),
                        operation,
                        service.default_error_status,
                        service.recorded,
                        *names,
                    ),
            ) =~= service.operations@.take(i as int).map_values(
                |operation: OperationDef|
                    method_text(
                        service.ident@,
                        crate::rename_rule::lower_first(service.ident@),
                        operation,
                        service.default_error_status,
                        service.recorded,
                        *names,
                    ),
            ).push(one@));
        }
        i += 1;
    }
    assert(service.operations@.take(service.operations.len() as int) =~= service.operations@);
    let mut text = String::from_str("/// A `");
    text.append(named);
    text.append("` caller over `http_rest`.\nclass ");
    text.append(named);
    text.append("HttpClient {\n  ");
    text.append(named);
    text.append("HttpClient(this._transport);\n  final ");
    text.append(named);
    text.append("HttpTransport _transport;\n\n");
    text.append(join_all(&methods, "\n\n").as_str());
    text.append("\n}");
    text
}

/// The case-insensitive response-header lookup.
pub open spec fn find_header_fn_text(fn_prefix: Seq<char>) -> Seq<char> {
    "/// Reads one response header back case-insensitively, the way HTTP headers are read.\nString? "@
        + find_header_text(fn_prefix)
        + "(List<(String, String)> headers, String name) {\n  for (final header in headers) {\n    if (header.$1.toLowerCase() == name) return header.$2;\n  }\n  return null;\n}"@
}

fn find_header_fn(fn_prefix: &str) -> (text: String)
    ensures
        text@ == find_header_fn_text(fn_prefix@),
{
    let mut text = String::from_str(
        "/// Reads one response header back case-insensitively, the way HTTP headers are read.\nString? ",
    );
    text.append(find_header_call(fn_prefix).as_str());
    text.append(
        "(List<(String, String)> headers, String name) {\n  for (final header in headers) {\n    if (header.$1.toLowerCase() == name) return header.$2;\n  }\n  return null;\n}",
    );
    text
}

/// The fault answered when the transport could not carry a call.
pub open spec fn transport_failure_text(named: Seq<char>, fn_prefix: Seq<char>) -> Seq<char> {
    "/// The fault a `"@ + named
        + "` HTTP client answers with when the transport could not carry a\n/// call: the request never went out, or the response never came back.\n"@
        + fields_name(named) + " _"@ + fn_prefix + "HttpTransportFailure(String operation, String detail) =>\n    "@
        + fields_name(named) + "(\n      detail: detail,\n      kind: "@ + named
        + "FaultKind.transportFailure,\n      operation: operation,\n    );"@
}

fn transport_failure_fn(named: &str, fn_prefix: &str) -> (text: String)
    ensures
        text@ == transport_failure_text(named@, fn_prefix@),
{
    let fields = fault_fields_typescript_name(named);
    let mut text = String::from_str("/// The fault a `");
    text.append(named);
    text.append(
        "` HTTP client answers with when the transport could not carry a\n/// call: the request never went out, or the response never came back.\n",
    );
    text.append(fields.as_str());
    text.append(" _");
    text.append(fn_prefix);
    text.append("HttpTransportFailure(String operation, String detail) =>\n    ");
    text.append(fields.as_str());
    text.append("(\n      detail: detail,\n      kind: ");
    text.append(named);
    text.append("FaultKind.transportFailure,\n      operation: operation,\n    );");
    text
}

/// The fault answered when a response will not become the answer its status promised.
pub open spec fn undeserializable_payload_text(named: Seq<char>, fn_prefix: Seq<char>) -> Seq<char> {
    "/// The fault a `"@ + named
        + "` HTTP client answers with when a response will not become the\n/// answer its status promised: a body that will not parse, a declared header that never\n/// arrived, or a status this client did not expect.\n"@
        + fields_name(named) + " _"@ + fn_prefix + "HttpUndeserializablePayload(String operation, String detail) =>\n    "@
        + fields_name(named) + "(\n      detail: detail,\n      kind: "@ + named
        + "FaultKind.undeserializablePayload,\n      operation: operation,\n    );"@
}

fn undeserializable_payload_fn(named: &str, fn_prefix: &str) -> (text: String)
    ensures
        text@ == undeserializable_payload_text(named@, fn_prefix@),
{
    let fields = fault_fields_typescript_name(named);
    let mut text = String::from_str("/// The fault a `");
    text.append(named);
    text.append(
        "` HTTP client answers with when a response will not become the\n/// answer its status promised: a body that will not parse, a declared header that never\n/// arrived, or a status this client did not expect.\n",
    );
    text.append(fields.as_str());
    text.append(" _");
    text.append(fn_prefix);
    text.append("HttpUndeserializablePayload(String operation, String detail) =>\n    ");
    text.append(fields.as_str());
    text.append("(\n      detail: detail,\n      kind: ");
    text.append(named);
    text.append("FaultKind.undeserializablePayload,\n      operation: operation,\n    );");
    text
}

/// A fixed fault status's own body read back into the fault it carries.
pub open spec fn fault_from_body_text(named: Seq<char>, fn_prefix: Seq<char>) -> Seq<char> {
    "/// Reads a fixed fault status's own body back into a `"@ + fields_name(named)
        + "`, through the same\n/// `fromJson` every other surface reads it with. A body that does not read as the fixed\n/// fault shape is itself a defect, answered as one.\n"@
        + fields_name(named) + " _"@ + fn_prefix + "HttpFaultFromBody(String operation, List<int> body) {\n  try {\n    return "@
        + fields_name(named) + ".fromJson(jsonDecode(utf8.decode(body)));\n  } catch (_) {\n    return _"@ + fn_prefix
        + "HttpUndeserializablePayload(\n      operation,\n      'a fault body did not match the expected shape',\n    );\n  }\n}"@
}

fn fault_from_body_fn(named: &str, fn_prefix: &str) -> (text: String)
    ensures
        text@ == fault_from_body_text(named@, fn_prefix@),
{
    let fields = fault_fields_typescript_name(named);
    let mut text = String::from_str("/// Reads a fixed fault status's own body back into a `");
    text.append(fields.as_str());
    text.append(
        "`, through the same\n/// `fromJson` every other surface reads it with. A body that does not read as the fixed\n/// fault shape is itself a defect, answered as one.\n",
    );
    text.append(fields.as_str());
    text.append(" _");
    text.append(fn_prefix);
    text.append("HttpFaultFromBody(String operation, List<int> body) {\n  try {\n    return ");
    text.append(fields.as_str());
    text.append(".fromJson(jsonDecode(utf8.decode(body)));\n  } catch (_) {\n    return _");
    text.append(fn_prefix);
    text.append(
        "HttpUndeserializablePayload(\n      operation,\n      'a fault body did not match the expected shape',\n    );\n  }\n}",
    );
    text
}

/// Whether every character of a header value is legal in HTTP.
pub open spec fn legal_header_value_text(fn_prefix: Seq<char>) -> Seq<char> {
    "/// Whether every character of `value` is legal as an HTTP header value: visible ASCII\n/// (`0x21`-`0x7E`), a space, or a tab.\nbool _"@
        + fn_prefix
        + "HttpLegalHeaderValue(String value) {\n  for (final code in value.codeUnits) {\n    if (code != 0x09 && code != 0x20 && (code < 0x21 || code > 0x7e)) return false;\n  }\n  return true;\n}"@
}

fn legal_header_value_fn(fn_prefix: &str) -> (text: String)
    ensures
        text@ == legal_header_value_text(fn_prefix@),
{
    let mut text = String::from_str(
        "/// Whether every character of `value` is legal as an HTTP header value: visible ASCII\n/// (`0x21`-`0x7E`), a space, or a tab.\nbool _",
    );
    text.append(fn_prefix);
    text.append(
        "HttpLegalHeaderValue(String value) {\n  for (final code in value.codeUnits) {\n    if (code != 0x09 && code != 0x20 && (code < 0x21 || code > 0x7e)) return false;\n  }\n  return true;\n}",
    );
    text
}

/// The fault a header value failing its safety check answers, before the transport is reached.
pub open spec fn outbound_fault_text(named: Seq<char>, fn_prefix: Seq<char>) -> Seq<char> {
    "/// The fault a `"@ + named
        + "` HTTP client answers with when a `header_in` value fails its\n/// own safety check, before the transport is ever reached.\n"@
        + fields_name(named) + " _"@ + fn_prefix
        + "HttpOutboundFault(String operation, String field, String detail) =>\n    "@ + fields_name(named)
        + "(\n      detail: detail,\n      field: field,\n      kind: "@ + named
        + "FaultKind.failedValidation,\n      operation: operation,\n    );"@
}

fn outbound_fault_fn(named: &str, fn_prefix: &str) -> (text: String)
    ensures
        text@ == outbound_fault_text(named@, fn_prefix@),
{
    let fields = fault_fields_typescript_name(named);
    let mut text = String::from_str("/// The fault a `");
    text.append(named);
    text.append(
        "` HTTP client answers with when a `header_in` value fails its\n/// own safety check, before the transport is ever reached.\n",
    );
    text.append(fields.as_str());
    text.append(" _");
    text.append(fn_prefix);
    text.append("HttpOutboundFault(String operation, String field, String detail) =>\n    ");
    text.append(fields.as_str());
    text.append("(\n      detail: detail,\n      field: field,\n      kind: ");
    text.append(named);
    text.append("FaultKind.failedValidation,\n      operation: operation,\n    );");
    text
}

/// Whether some operation reads a response header: a declared `header_out` or
/// `error_header_out`, or a bytes or streamed body.
pub open spec fn reads_response_header(operations: Seq<OperationDef>) -> bool {
    exists|i: int|
        0 <= i < operations.len() && {
            let http = (#[trigger] operations[i]).http;
            http.header_out@.len() > 0 || http.error_header_out@.len() > 0 || http.body_kind == BodyKind::Bytes
                || http.body_kind == BodyKind::Stream
        }
}

fn reads_a_response_header(service: &ServiceDef) -> (reads: bool)
    ensures
        reads == reads_response_header(service.operations@),
{
    let mut i: usize = 0;
    while i < service.operations.len()
        invariant
            0 <= i <= service.operations.len(),
            forall|j: int|
                0 <= j < i ==> {
                    let http = (#[trigger] service.operations@[j]).http;
                    !(http.header_out@.len() > 0 || http.error_header_out@.len() > 0 || http.body_kind
                        == BodyKind::Bytes || http.body_kind == BodyKind::Stream)
                },
        decreases service.operations.len() - i,
    {
        let http = &service.operations[i].http;
        if http.header_out.len() > 0 || http.error_header_out.len() > 0 || http.body_kind == BodyKind::Bytes
            || http.body_kind == BodyKind::Stream {
            return true;
        }
        i += 1;
    }
    false
}

/// The private helpers every method reaches for: the header lookup where some operation reads a
/// response header, the three faults a client answers on its own, and the header-value check
/// with its fault where some operation binds a request header.
pub open spec fn fault_helpers_text(service: ServiceDef, fn_prefix: Seq<char>) -> Seq<Seq<char>> {
    let named = service.ident@;
    let lookup = if reads_response_header(service.operations@) {
        seq![find_header_fn_text(fn_prefix)]
    } else {
        Seq::empty()
    };
    let outbound = if any_header_in(service.operations@) {
        seq![legal_header_value_text(fn_prefix), outbound_fault_text(named, fn_prefix)]
    } else {
        Seq::empty()
    };
    lookup + seq![
        transport_failure_text(named, fn_prefix),
        undeserializable_payload_text(named, fn_prefix),
        fault_from_body_text(named, fn_prefix),
    ] + outbound
}

pub fn fault_helpers(service: &ServiceDef, fn_prefix: &str) -> (helpers: Vec<String>)
    ensures
        views(helpers@) == fault_helpers_text(*service, fn_prefix@),
{
    let named = service.ident.as_str();
    let mut helpers: Vec<String> = Vec::new();
    if reads_a_response_header(service) {
        helpers.push(find_header_fn(fn_prefix));
    }
    helpers.push(transport_failure_fn(named, fn_prefix));
    helpers.push(undeserializable_payload_fn(named, fn_prefix));
    helpers.push(fault_from_body_fn(named, fn_prefix));
    if declares_header_in(service) {
        helpers.push(legal_header_value_fn(fn_prefix));
        helpers.push(outbound_fault_fn(named, fn_prefix));
    }
    assert(views(helpers@) =~= fault_helpers_text(*service, fn_prefix@));
    helpers
}

} // verus!
