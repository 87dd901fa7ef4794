//! How one Dart `http_rest` method sends its request and reads the answer by status: the success
//! its operation declared, the error it declared, a fixed fault status's own body, or a fault for
//! anything else.
use super::wire::{dart_header_decode, dart_header_out_decode};
use crate::features::dart::{dart_type, dart_typename, DartNames};
use crate::features::service_schema::kotlin_http_client::{body_element_of, body_element_type, header_field_count};
use crate::features::service_schema::kotlin_http_client::response::{error_condition_expr, error_condition_text};
use crate::features::service_schema::result::tuple_elements;
use crate::field_type::{decimal, decimal_text, is_unit_type, unit_type, FieldDef, FieldDefType, Recorded};
use crate::rename_rule::{pascal_case, pascal_case_of_field};
use crate::service_def::{BodyKind, HttpShape};
use crate::text::{join, join_all, views};
use vstd::prelude::*;

verus! {

/// The response record every service's `send` answers with.
pub open spec fn response_record_text() -> Seq<char> {
    "{int status, List<(String, String)> headers, List<int> body, Stream<List<int>> bodyStream}"@
}

/// The call handing the request record to the transport.
pub open spec fn send_expr_text(method: Seq<char>) -> Seq<char> {
    "await _transport.send((method: '"@ + method
        + "', path: path, query: query, headers: headers, body: body, parts: parts))"@
}

/// The send of a one-way method: a transport that fails throws the refusal.
pub open spec fn send_one_way_text(named: Seq<char>, fn_prefix: Seq<char>, wire: Seq<char>, method: Seq<char>) -> Seq<
    char,
> {
    "    late final ("@ + response_record_text() + ") response;\n    try {\n      response = "@ + send_expr_text(method)
        + ";\n    } catch (uncarried) {\n      throw "@ + named + "HttpRefusal(_"@ + fn_prefix
        + "HttpTransportFailure('"@ + wire + "', '$uncarried'));\n    }\n"@
}

fn send_head(method: &str) -> (text: String)
    ensures
        text@ == "    late final ("@ + response_record_text() + ") response;\n    try {\n      response = "@
            + send_expr_text(method@) + ";\n    } catch (uncarried) {\n      "@,
{
    let mut text = String::from_str("    late final (");
    text.append("{int status, List<(String, String)> headers, List<int> body, Stream<List<int>> bodyStream}");
    text.append(") response;\n    try {\n      response = ");
    text.append("await _transport.send((method: '");
    text.append(method);
    text.append("', path: path, query: query, headers: headers, body: body, parts: parts))");
    text.append(";\n    } catch (uncarried) {\n      ");
    text
}

pub fn send_stmt_one_way(named: &str, fn_prefix: &str, wire: &str, method: &str) -> (text: String)
    ensures
        text@ == send_one_way_text(named@, fn_prefix@, wire@, method@),
{
    let mut text = send_head(method);
    text.append("throw ");
    text.append(named);
    text.append("HttpRefusal(_");
    text.append(fn_prefix);
    text.append("HttpTransportFailure('");
    text.append(wire);
    text.append("', '$uncarried'));\n    }\n");
    proof {
        reveal_strlit("    late final (");
        reveal_strlit(") response;\n    try {\n      response = ");
        reveal_strlit(";\n    } catch (uncarried) {\n      ");
        reveal_strlit("throw ");
        reveal_strlit(";\n    } catch (uncarried) {\n      throw ");
    }
    assert(text@ =~= send_one_way_text(named@, fn_prefix@, wire@, method@));
    text
}

/// The send of a reply method: a transport that fails answers the fault.
pub open spec fn send_reply_text(result: Seq<char>, fn_prefix: Seq<char>, wire: Seq<char>, method: Seq<char>) -> Seq<
    char,
> {
    "    late final ("@ + response_record_text() + ") response;\n    try {\n      response = "@ + send_expr_text(method)
        + ";\n    } catch (uncarried) {\n      return "@ + result + "Fault(_"@ + fn_prefix
        + "HttpTransportFailure('"@ + wire + "', '$uncarried'));\n    }\n"@
}

pub fn send_stmt_reply(result: &str, fn_prefix: &str, wire: &str, method: &str) -> (text: String)
    ensures
        text@ == send_reply_text(result@, fn_prefix@, wire@, method@),
{
    let mut text = send_head(method);
    text.append("return ");
    text.append(result);
    text.append("Fault(_");
    text.append(fn_prefix);
    text.append("HttpTransportFailure('");
    text.append(wire);
    text.append("', '$uncarried'));\n    }\n");
    proof {
        reveal_strlit(";\n    } catch (uncarried) {\n      ");
        reveal_strlit("return ");
        reveal_strlit(";\n    } catch (uncarried) {\n      return ");
    }
    assert(text@ =~= send_reply_text(result@, fn_prefix@, wire@, method@));
    text
}

/// A one-way method's answer: its own status returns, a fixed fault status throws the fault its
/// body carries, anything else throws a fault of its own.
pub open spec fn one_way_decode_text(named: Seq<char>, fn_prefix: Seq<char>, ok_status: u16, wire: Seq<char>) -> Seq<
    char,
> {
    "    final status = response.status;\n    if (status == "@ + decimal(ok_status as nat)
        + ") {\n      return;\n    }\n    if (status == 400 || status == 404 || status == 500) {\n      throw "@ + named
        + "HttpRefusal(_"@ + fn_prefix + "HttpFaultFromBody('"@ + wire + "', response.body));\n    }\n    throw "@
        + named + "HttpRefusal(\n      _"@ + fn_prefix + "HttpUndeserializablePayload('"@ + wire
        + "', 'an unexpected status ($status) answered'),\n    );\n"@
}

pub fn one_way_decode_stmt(named: &str, fn_prefix: &str, ok_status: u16, wire: &str) -> (text: String)
    ensures
        text@ == one_way_decode_text(named@, fn_prefix@, ok_status, wire@),
{
    let mut text = String::from_str("    final status = response.status;\n    if (status == ");
    text.append(decimal_text(ok_status as u64).as_str());
    text.append(") {\n      return;\n    }\n    if (status == 400 || status == 404 || status == 500) {\n      throw ");
    text.append(named);
    text.append("HttpRefusal(_");
    text.append(fn_prefix);
    text.append("HttpFaultFromBody('");
    text.append(wire);
    text.append("', response.body));\n    }\n    throw ");
    text.append(named);
    text.append("HttpRefusal(\n      _");
    text.append(fn_prefix);
    text.append("HttpUndeserializablePayload('");
    text.append(wire);
    text.append("', 'an unexpected status ($status) answered'),\n    );\n");
    text
}

/// The name a response header is looked up with.
pub open spec fn find_header_text(fn_prefix: Seq<char>) -> Seq<char> {
    "_"@ + fn_prefix + "HttpFindHeader"@
}

pub fn find_header_call(fn_prefix: &str) -> (text: String)
    ensures
        text@ == find_header_text(fn_prefix@),
{
    let mut text = String::from_str("_");
    text.append(fn_prefix);
    text.append("HttpFindHeader");
    text
}

/// Reads the body into `var` as `ty`; a body that will not read answers a fault.
pub open spec fn try_decode_text(ty: Seq<char>, var: Seq<char>, result: Seq<char>, fn_prefix: Seq<char>, wire: Seq<char>) -> Seq<
    char,
> {
    "      late final "@ + ty + " "@ + var + ";\n      try {\n        "@ + var + " = "@ + ty
        + ".fromJson(jsonDecode(utf8.decode(response.body)));\n      } catch (rejected) {\n        return "@ + result
        + "Fault(\n          _"@ + fn_prefix + "HttpUndeserializablePayload('"@ + wire
        + "', '$rejected'),\n        );\n      }\n"@
}

fn try_decode(ty: &str, var: &str, result: &str, fn_prefix: &str, wire: &str) -> (text: String)
    ensures
        text@ == try_decode_text(ty@, var@, result@, fn_prefix@, wire@),
{
    let mut text = String::from_str("      late final ");
    text.append(ty);
    text.append(" ");
    text.append(var);
    text.append(";\n      try {\n        ");
    text.append(var);
    text.append(" = ");
    text.append(ty);
    text.append(".fromJson(jsonDecode(utf8.decode(response.body)));\n      } catch (rejected) {\n        return ");
    text.append(result);
    text.append("Fault(\n          _");
    text.append(fn_prefix);
    text.append("HttpUndeserializablePayload('");
    text.append(wire);
    text.append("', '$rejected'),\n        );\n      }\n");
    text
}

/// Reads each declared response header into `{prefix}N`, in order: a missing optional one reads
/// `null`, any other missing one answers a fault.
pub open spec fn header_reads_text(
    result: Seq<char>,
    fn_prefix: Seq<char>,
    wire: Seq<char>,
    header_names: Seq<String>,
    whole: FieldDef,
    skip: nat,
    prefix: Seq<char>,
    count: nat,
) -> Seq<char>
    decreases count,
{
    if count == 0 {
        Seq::empty()
    } else {
        let i = (count - 1) as nat;
        let element = tuple_elements(whole)[(skip + i) as int];
        let raw = "raw"@ + pascal_case(prefix) + decimal(i);
        header_reads_text(result, fn_prefix, wire, header_names, whole, skip, prefix, i) + header_read_text(
            result,
            fn_prefix,
            wire,
            header_names[i as int]@,
            element,
            raw,
            prefix + decimal(i),
        )
    }
}

/// Reads one declared response header off `raw` into `ident`.
pub open spec fn header_read_text(
    result: Seq<char>,
    fn_prefix: Seq<char>,
    wire: Seq<char>,
    name: Seq<char>,
    element: FieldDef,
    raw: Seq<char>,
    ident: Seq<char>,
) -> Seq<char> {
    let decode = dart_header_decode(element, element.array_depth as nat, raw);
    "      final "@ + raw + " = "@ + find_header_text(fn_prefix) + "(response.headers, '"@ + name + "');\n"@
        + if element.optional {
        "      final "@ + ident + " = "@ + raw + " == null ? null : "@ + decode + ";\n"@
    } else {
        "      if ("@ + raw + " == null) {\n        return "@ + result + "Fault(\n          _"@ + fn_prefix
            + "HttpUndeserializablePayload('"@ + wire
            + "', 'a declared response header was missing'),\n        );\n      }\n      final "@ + ident + " = "@
            + decode + ";\n"@
    }
}

fn header_read(
    result: &str,
    fn_prefix: &str,
    wire: &str,
    name: &str,
    element: &FieldDef,
    raw: &str,
    ident: &str,
) -> (text: String)
    ensures
        text@ == header_read_text(result@, fn_prefix@, wire@, name@, *element, raw@, ident@),
{
    let decode = dart_header_out_decode(element, element.array_depth, raw);
    let mut text = String::from_str("      final ");
    text.append(raw);
    text.append(" = ");
    text.append(find_header_call(fn_prefix).as_str());
    text.append("(response.headers, '");
    text.append(name);
    text.append("');\n");
    if element.optional {
        text.append("      final ");
        text.append(ident);
        text.append(" = ");
        text.append(raw);
        text.append(" == null ? null : ");
        text.append(decode.as_str());
        text.append(";\n");
    } else {
        text.append("      if (");
        text.append(raw);
        text.append(" == null) {\n        return ");
        text.append(result);
        text.append("Fault(\n          _");
        text.append(fn_prefix);
        text.append("HttpUndeserializablePayload('");
        text.append(wire);
        text.append("', 'a declared response header was missing'),\n        );\n      }\n      final ");
        text.append(ident);
        text.append(" = ");
        text.append(decode.as_str());
        text.append(";\n");
    }
    text
}

/// `{prefix}0, {prefix}1, …` for `count` headers.
pub open spec fn header_idents_text(prefix: Seq<char>, count: nat) -> Seq<char> {
    join(Seq::new(count, |i: int| prefix + decimal(i as nat)), ", "@)
}

/// Reads the headers a tuple composes past its first `skip` elements: the statements, the names
/// they bind joined by `, `, and how many there are.
fn header_reads(
    result: &str,
    fn_prefix: &str,
    wire: &str,
    header_names: &Vec<String>,
    whole: &FieldDef,
    skip: usize,
    prefix: &str,
) -> (read: (String, String, usize))
    requires
        skip <= 2,
    ensures
        read.2 == header_field_count(header_names@.len(), *whole, skip as nat),
        read.0@ == header_reads_text(
            result@,
            fn_prefix@,
            wire@,
            header_names@,
            *whole,
            skip as nat,
            prefix@,
            read.2 as nat,
        ),
        read.1@ == header_idents_text(prefix@, read.2 as nat),
{
    let no_elements: Vec<FieldDef> = Vec::new();
    let elements = match &whole.field_type {
        FieldDefType::Tuple(elements) => elements,
        _ => &no_elements,
    };
    assert(elements@ == tuple_elements(*whole));
    let declared = header_names.len();
    let count = if elements.len() <= skip {
        0
    } else if declared < elements.len() - skip {
        declared
    } else {
        elements.len() - skip
    };
    let capitalized = pascal_case_of_field(prefix);
    let mut reads = String::new();
    let mut idents: Vec<String> = Vec::new();
    let mut i: usize = 0;
    while i < count
        invariant
            0 <= i <= count,
            skip <= 2,
            count == header_field_count(header_names@.len(), *whole, skip as nat),
            count <= header_names@.len(),
            count == 0 || skip + count <= elements.len(),
            elements@ == tuple_elements(*whole),
            capitalized@ == pascal_case(prefix@),
            reads@ == header_reads_text(
                result@,
                fn_prefix@,
                wire@,
                header_names@,
                *whole,
                skip as nat,
                prefix@,
                i as nat,
            ),
            views(idents@) == Seq::new(i as nat, |k: int| prefix@ + decimal(k as nat)),
        decreases count - i,
    {
        let element = &elements[skip + i];
        let index = decimal_text(i as u64);
        let mut raw = String::from_str("raw");
        raw.append(capitalized.as_str());
        raw.append(index.as_str());
        let mut ident = prefix.to_owned();
        ident.append(index.as_str());
        reads.append(header_read(result, fn_prefix, wire, header_names[i].as_str(), element, raw.as_str(), ident.as_str()).as_str());
        let ghost before = views(idents@);
        let ghost pushed = ident@;
        idents.push(ident);
        assert(views(idents@) =~= before.push(pushed));
        assert(views(idents@) =~= Seq::new((i + 1) as nat, |k: int| prefix@ + decimal(k as nat)));
        i += 1;
    }
    (reads, join_all(&idents, ", "), count)
}

/// The declared error's arm: its body read back, then each `error_header_out` element where
/// any was declared.
pub open spec fn error_block_text(
    result: Seq<char>,
    fn_prefix: Seq<char>,
    wire: Seq<char>,
    shape: HttpShape,
    error: FieldDef,
    names: DartNames,
) -> Seq<char> {
    if shape.error_header_out@.len() == 0 {
        try_decode_text(dart_type(error, names), "declared"@, result, fn_prefix, wire) + "      return "@ + result
            + "Operation(declared);\n"@
    } else {
        let head = body_element_of(error);
        let count = header_field_count(shape.error_header_out@.len(), error, 1);
        try_decode_text(dart_type(head, names), "declaredHead"@, result, fn_prefix, wire) + header_reads_text(
            result,
            fn_prefix,
            wire,
            shape.error_header_out@,
            error,
            1,
            "errorHeaderOut"@,
            count,
        ) + "      return "@ + result + "Operation((declaredHead, "@ + header_idents_text("errorHeaderOut"@, count)
            + "));\n"@
    }
}

fn error_decode_block(
    result: &str,
    fn_prefix: &str,
    wire: &str,
    shape: &HttpShape,
    error: &FieldDef,
    names: &DartNames,
) -> (text: String)
    ensures
        text@ == error_block_text(result@, fn_prefix@, wire@, *shape, *error, *names),
{
    if shape.error_header_out.len() == 0 {
        let ty = dart_typename(error, names);
        let mut text = try_decode(ty.as_str(), "declared", result, fn_prefix, wire);
        text.append("      return ");
        text.append(result);
        text.append("Operation(declared);\n");
        return text;
    }
    let head = body_element_type(error);
    let ty = dart_typename(head, names);
    let mut text = try_decode(ty.as_str(), "declaredHead", result, fn_prefix, wire);
    let (reads, idents, _count) = header_reads(result, fn_prefix, wire, &shape.error_header_out, error, 1, "errorHeaderOut");
    text.append(reads.as_str());
    text.append("      return ");
    text.append(result);
    text.append("Operation((declaredHead, ");
    text.append(idents.as_str());
    text.append("));\n");
    text
}

/// The rest of a reply method's answer once its success statuses are read: the declared error's
/// statuses, a fixed fault status's own body, or a fault of its own.
pub open spec fn tail_text(
    result: Seq<char>,
    fn_prefix: Seq<char>,
    wire: Seq<char>,
    condition: Seq<char>,
    error_block: Seq<char>,
) -> Seq<char> {
    "    if ("@ + condition + ") {\n"@ + error_block
        + "    }\n    if (status == 400 || status == 404 || status == 500) {\n      return "@ + result + "Fault(_"@
        + fn_prefix + "HttpFaultFromBody('"@ + wire + "', response.body));\n    }\n    return "@ + result
        + "Fault(\n      _"@ + fn_prefix + "HttpUndeserializablePayload('"@ + wire
        + "', 'an unexpected status ($status) answered'),\n    );\n"@
}

fn tail(result: &str, fn_prefix: &str, wire: &str, condition: &str, error_block: &str) -> (text: String)
    ensures
        text@ == tail_text(result@, fn_prefix@, wire@, condition@, error_block@),
{
    let mut text = String::from_str("    if (");
    text.append(condition);
    text.append(") {\n");
    text.append(error_block);
    text.append("    }\n    if (status == 400 || status == 404 || status == 500) {\n      return ");
    text.append(result);
    text.append("Fault(_");
    text.append(fn_prefix);
    text.append("HttpFaultFromBody('");
    text.append(wire);
    text.append("', response.body));\n    }\n    return ");
    text.append(result);
    text.append("Fault(\n      _");
    text.append(fn_prefix);
    text.append("HttpUndeserializablePayload('");
    text.append(wire);
    text.append("', 'an unexpected status ($status) answered'),\n    );\n");
    text
}

/// One streamed arm: the content range (read off the response for a partial answer, absent for
/// a whole one) paired with the body stream, then the declared headers.
pub open spec fn stream_arm_text(
    result: Seq<char>,
    fn_prefix: Seq<char>,
    wire: Seq<char>,
    header_names: Seq<String>,
    success: FieldDef,
    partial: bool,
) -> Seq<char> {
    let range = if partial {
        "      final contentRange = "@ + find_header_text(fn_prefix) + "(response.headers, 'content-range') ?? '';\n"@
    } else {
        "      const String? contentRange = null;\n"@
    };
    let answer = range + "      final answer = (contentRange: contentRange, body: response.bodyStream);\n"@;
    if header_names.len() == 0 {
        answer + "      return "@ + result + "Ok(answer);\n"@
    } else {
        let count = header_field_count(header_names.len(), success, 1);
        answer + header_reads_text(result, fn_prefix, wire, header_names, success, 1, "headerOut"@, count)
            + "      return "@ + result + "Ok((answer, "@ + header_idents_text("headerOut"@, count) + "));\n"@
    }
}

fn stream_success_arm(
    result: &str,
    fn_prefix: &str,
    wire: &str,
    header_names: &Vec<String>,
    success: &FieldDef,
    partial: bool,
) -> (text: String)
    ensures
        text@ == stream_arm_text(result@, fn_prefix@, wire@, header_names@, *success, partial),
{
    let mut text = if partial {
        let mut range = String::from_str("      final contentRange = ");
        range.append(find_header_call(fn_prefix).as_str());
        range.append("(response.headers, 'content-range') ?? '';\n");
        range
    } else {
        String::from_str("      const String? contentRange = null;\n")
    };
    text.append("      final answer = (contentRange: contentRange, body: response.bodyStream);\n");
    if header_names.len() == 0 {
        text.append("      return ");
        text.append(result);
        text.append("Ok(answer);\n");
        return text;
    }
    let (reads, idents, _count) = header_reads(result, fn_prefix, wire, header_names, success, 1, "headerOut");
    text.append(reads.as_str());
    text.append("      return ");
    text.append(result);
    text.append("Ok((answer, ");
    text.append(idents.as_str());
    text.append("));\n");
    text
}

/// A bytes success: the body and its content type, then the declared headers.
pub open spec fn bytes_block_text(
    result: Seq<char>,
    fn_prefix: Seq<char>,
    wire: Seq<char>,
    header_names: Seq<String>,
    success: FieldDef,
) -> Seq<char> {
    let content_type = "      final contentType = "@ + find_header_text(fn_prefix)
        + "(response.headers, 'content-type') ?? '';\n"@;
    if header_names.len() == 0 {
        content_type + "      return "@ + result + "Ok((response.body, contentType));\n"@
    } else {
        let count = header_field_count(header_names.len(), success, 2);
        content_type + header_reads_text(result, fn_prefix, wire, header_names, success, 2, "headerOut"@, count)
            + "      return "@ + result + "Ok((response.body, contentType, "@ + header_idents_text("headerOut"@, count)
            + "));\n"@
    }
}

fn bytes_success_decode_block(
    result: &str,
    fn_prefix: &str,
    wire: &str,
    header_names: &Vec<String>,
    success: &FieldDef,
) -> (text: String)
    ensures
        text@ == bytes_block_text(result@, fn_prefix@, wire@, header_names@, *success),
{
    let mut text = String::from_str("      final contentType = ");
    text.append(find_header_call(fn_prefix).as_str());
    text.append("(response.headers, 'content-type') ?? '';\n");
    if header_names.len() == 0 {
        text.append("      return ");
        text.append(result);
        text.append("Ok((response.body, contentType));\n");
        return text;
    }
    let (reads, idents, _count) = header_reads(result, fn_prefix, wire, header_names, success, 2, "headerOut");
    text.append(reads.as_str());
    text.append("      return ");
    text.append(result);
    text.append("Ok((response.body, contentType, ");
    text.append(idents.as_str());
    text.append("));\n");
    text
}

/// The success status's arm: a bytes body as bytes; with no declared header, nothing for a unit
/// success, else the decoded body; with declared headers, the decoded body and then each header.
pub open spec fn success_block_text(
    result: Seq<char>,
    fn_prefix: Seq<char>,
    wire: Seq<char>,
    shape: HttpShape,
    success: FieldDef,
    recorded: Recorded,
    names: DartNames,
) -> Seq<char> {
    if shape.body_kind == BodyKind::Bytes {
        bytes_block_text(result, fn_prefix, wire, shape.header_out@, success)
    } else if shape.header_out@.len() == 0 {
        if unit_type(success, recorded) {
            "      return "@ + result + "Ok();\n"@
        } else {
            try_decode_text(dart_type(success, names), "value"@, result, fn_prefix, wire) + "      return "@ + result
                + "Ok(value);\n"@
        }
    } else {
        let body = body_element_of(success);
        let count = header_field_count(shape.header_out@.len(), success, 1);
        try_decode_text(dart_type(body, names), "value"@, result, fn_prefix, wire) + header_reads_text(
            result,
            fn_prefix,
            wire,
            shape.header_out@,
            success,
            1,
            "headerOut"@,
            count,
        ) + "      return "@ + result + "Ok((value, "@ + header_idents_text("headerOut"@, count) + "));\n"@
    }
}

fn success_decode_block(
    result: &str,
    fn_prefix: &str,
    wire: &str,
    shape: &HttpShape,
    success: &FieldDef,
    recorded: &Recorded,
    names: &DartNames,
) -> (text: String)
    ensures
        text@ == success_block_text(result@, fn_prefix@, wire@, *shape, *success, *recorded, *names),
{
    if shape.body_kind == BodyKind::Bytes {
        return bytes_success_decode_block(result, fn_prefix, wire, &shape.header_out, success);
    }
    if shape.header_out.len() == 0 {
        if is_unit_type(success, recorded) {
            let mut text = String::from_str("      return ");
            text.append(result);
            text.append("Ok();\n");
            return text;
        }
        let ty = dart_typename(success, names);
        let mut text = try_decode(ty.as_str(), "value", result, fn_prefix, wire);
        text.append("      return ");
        text.append(result);
        text.append("Ok(value);\n");
        return text;
    }
    let body = body_element_type(success);
    let ty = dart_typename(body, names);
    let mut text = try_decode(ty.as_str(), "value", result, fn_prefix, wire);
    let (reads, idents, _count) = header_reads(result, fn_prefix, wire, &shape.header_out, success, 1, "headerOut");
    text.append(reads.as_str());
    text.append("      return ");
    text.append(result);
    text.append("Ok((value, ");
    text.append(idents.as_str());
    text.append("));\n");
    text
}

/// A reply method's answer read by status: a streamed body's partial and whole statuses, or the
/// success status; then the declared error's statuses and the faults.
pub open spec fn reply_decode_text(
    result: Seq<char>,
    fn_prefix: Seq<char>,
    wire: Seq<char>,
    shape: HttpShape,
    error: FieldDef,
    success: FieldDef,
    default_status: u16,
    recorded: Recorded,
    names: DartNames,
) -> Seq<char> {
    let condition = error_condition_text(shape.error_status@, default_status);
    let rest = tail_text(result, fn_prefix, wire, condition, error_block_text(result, fn_prefix, wire, shape, error, names));
    let ok = decimal(shape.ok_status as nat);
    if shape.body_kind == BodyKind::Stream {
        "    final status = response.status;\n    if (status == 206) {\n"@ + stream_arm_text(
            result,
            fn_prefix,
            wire,
            shape.header_out@,
            success,
            true,
        ) + "    }\n    if (status == "@ + ok + ") {\n"@ + stream_arm_text(
            result,
            fn_prefix,
            wire,
            shape.header_out@,
            success,
            false,
        ) + "    }\n"@ + rest
    } else {
        "    final status = response.status;\n    if (status == "@ + ok + ") {\n"@ + success_block_text(
            result,
            fn_prefix,
            wire,
            shape,
            success,
            recorded,
            names,
        ) + "    }\n"@ + rest
    }
}

pub fn reply_decode_stmt(
    result: &str,
    fn_prefix: &str,
    wire: &str,
    shape: &HttpShape,
    error: &FieldDef,
    success: &FieldDef,
    default_status: u16,
    recorded: &Recorded,
    names: &DartNames,
) -> (text: String)
    ensures
        text@ == reply_decode_text(
            result@,
            fn_prefix@,
            wire@,
            *shape,
            *error,
            *success,
            default_status,
            *recorded,
            *names,
        ),
{
    let condition = error_condition_expr(&shape.error_status, default_status);
    let error_block = error_decode_block(result, fn_prefix, wire, shape, error, names);
    let rest = tail(result, fn_prefix, wire, condition.as_str(), error_block.as_str());
    let ok = decimal_text(shape.ok_status as u64);
    if shape.body_kind == BodyKind::Stream {
        let partial = stream_success_arm(result, fn_prefix, wire, &shape.header_out, success, true);
        let full = stream_success_arm(result, fn_prefix, wire, &shape.header_out, success, false);
        let mut text = String::from_str("    final status = response.status;\n    if (status == 206) {\n");
        text.append(partial.as_str());
        text.append("    }\n    if (status == ");
        text.append(ok.as_str());
        text.append(") {\n");
        text.append(full.as_str());
        text.append("    }\n");
        text.append(rest.as_str());
        text
    } else {
        let block = success_decode_block(result, fn_prefix, wire, shape, success, recorded, names);
        let mut text = String::from_str("    final status = response.status;\n    if (status == ");
        text.append(ok.as_str());
        text.append(") {\n");
        text.append(block.as_str());
        text.append("    }\n");
        text.append(rest.as_str());
        text
    }
}

} // verus!
