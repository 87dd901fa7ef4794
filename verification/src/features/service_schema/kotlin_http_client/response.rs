//! How one Kotlin `http_rest` method sends its request and reads the answer by status: the
//! success its operation declared, the error it declared, a fixed fault status's own body, or a
//! fault for anything else.
use super::wire::{header_decode_text, kotlin_header_out_decode};
use super::{body_element_of, header_field_count};
use crate::features::kotlin::{kotlin_typename, kt_type, tuples_of, KotlinNames, TupleWrappers, Tuples};
use crate::features::service_schema::result::tuple_elements;
use crate::field_type::{decimal, decimal_text, is_unit_type, unit_type, FieldDef, FieldDefType, Recorded};
use crate::service_def::{BodyKind, ErrorStatus, HttpShape};
use crate::text::{join, join_all, views};
use vstd::prelude::*;

verus! {

/// The call handing the request to the transport.
pub open spec fn send_expr_text(named: Seq<char>, method: Seq<char>, has_multipart: bool) -> Seq<char> {
    "transport.send("@ + named + "HttpRequest(method = \""@ + method
        + "\", path = path, query = query, headers = headers, body = body"@ + (if has_multipart {
        ", parts = parts"@
    } else {
        ""@
    }) + "))"@
}

fn send_expr(named: &str, method: &str, has_multipart: bool) -> (text: String)
    ensures
        text@ == send_expr_text(named@, method@, has_multipart),
{
    let mut text = String::from_str("transport.send(");
    text.append(named);
    text.append("HttpRequest(method = \"");
    text.append(method);
    text.append("\", path = path, query = query, headers = headers, body = body");
    text.append(if has_multipart { ", parts = parts" } else { "" });
    text.append("))");
    text
}

/// The send of a one-way method: a transport that fails throws the refusal.
pub open spec fn send_one_way_text(
    named: Seq<char>,
    fn_prefix: Seq<char>,
    wire: Seq<char>,
    method: Seq<char>,
    has_multipart: bool,
) -> Seq<char> {
    "    val response = try {\n      "@ + send_expr_text(named, method, has_multipart)
        + "\n    } catch (thrown: Throwable) {\n      throw "@ + named + "Refusal("@ + fn_prefix
        + "HttpTransportFailure(\""@ + wire + "\", thrown.toString()))\n    }\n"@
}

pub fn send_stmt_one_way(named: &str, fn_prefix: &str, wire: &str, method: &str, has_multipart: bool) -> (text: String)
    ensures
        text@ == send_one_way_text(named@, fn_prefix@, wire@, method@, has_multipart),
{
    let mut text = String::from_str("    val response = try {\n      ");
    text.append(send_expr(named, method, has_multipart).as_str());
    text.append("\n    } catch (thrown: Throwable) {\n      throw ");
    text.append(named);
    text.append("Refusal(");
    text.append(fn_prefix);
    text.append("HttpTransportFailure(\"");
    text.append(wire);
    text.append("\", thrown.toString()))\n    }\n");
    text
}

/// The send of a reply method: a transport that fails answers the fault.
pub open spec fn send_reply_text(
    named: Seq<char>,
    result: Seq<char>,
    fn_prefix: Seq<char>,
    wire: Seq<char>,
    method: Seq<char>,
    has_multipart: bool,
) -> Seq<char> {
    "    val response = try {\n      "@ + send_expr_text(named, method, has_multipart)
        + "\n    } catch (thrown: Throwable) {\n      return "@ + result + ".Fault("@ + fn_prefix
        + "HttpTransportFailure(\""@ + wire + "\", thrown.toString()))\n    }\n"@
}

pub fn send_stmt_reply(
    named: &str,
    result: &str,
    fn_prefix: &str,
    wire: &str,
    method: &str,
    has_multipart: bool,
) -> (text: String)
    ensures
        text@ == send_reply_text(named@, result@, fn_prefix@, wire@, method@, has_multipart),
{
    let mut text = String::from_str("    val response = try {\n      ");
    text.append(send_expr(named, method, has_multipart).as_str());
    text.append("\n    } catch (thrown: Throwable) {\n      return ");
    text.append(result);
    text.append(".Fault(");
    text.append(fn_prefix);
    text.append("HttpTransportFailure(\"");
    text.append(wire);
    text.append("\", thrown.toString()))\n    }\n");
    text
}

/// A one-way method's answer: its own status returns, a fixed fault status throws the fault its
/// body carries, anything else throws a fault of its own.
pub open spec fn one_way_decode_text(named: Seq<char>, fn_prefix: Seq<char>, ok_status: u16, wire: Seq<char>) -> Seq<
    char,
> {
    "    val status = response.status\n    if (status == "@ + decimal(ok_status as nat)
        + ") {\n      return\n    }\n    if (status == 400 || status == 404 || status == 500) {\n      throw "@
        + named + "Refusal("@ + fn_prefix + "HttpFaultFromBody(\""@ + wire + "\", response))\n    }\n    throw "@
        + named + "Refusal(\n      "@ + fn_prefix + "HttpUndeserializablePayload(\""@ + wire
        + "\", \"an unexpected status ($status) answered\"),\n    )\n"@
}

pub fn one_way_decode_stmt(named: &str, fn_prefix: &str, ok_status: u16, wire: &str) -> (text: String)
    ensures
        text@ == one_way_decode_text(named@, fn_prefix@, ok_status, wire@),
{
    let mut text = String::from_str("    val status = response.status\n    if (status == ");
    text.append(decimal_text(ok_status as u64).as_str());
    text.append(") {\n      return\n    }\n    if (status == 400 || status == 404 || status == 500) {\n      throw ");
    text.append(named);
    text.append("Refusal(");
    text.append(fn_prefix);
    text.append("HttpFaultFromBody(\"");
    text.append(wire);
    text.append("\", response))\n    }\n    throw ");
    text.append(named);
    text.append("Refusal(\n      ");
    text.append(fn_prefix);
    text.append("HttpUndeserializablePayload(\"");
    text.append(wire);
    text.append("\", \"an unexpected status ($status) answered\"),\n    )\n");
    text
}

/// One `status == N` per status the operation mapped its error to, joined by `||`; the default
/// status where it mapped none.
pub open spec fn error_condition_text(statuses: Seq<ErrorStatus>, default_status: u16) -> Seq<char> {
    if statuses.len() == 0 {
        "status == "@ + decimal(default_status as nat)
    } else {
        join(statuses.map_values(|status: ErrorStatus| "status == "@ + decimal(status.code as nat)), " || "@)
    }
}

pub fn error_condition_expr(statuses: &Vec<ErrorStatus>, default_status: u16) -> (text: String)
    ensures
        text@ == error_condition_text(statuses@, default_status),
{
    if statuses.len() == 0 {
        let mut text = String::from_str("status == ");
        text.append(decimal_text(default_status as u64).as_str());
        return text;
    }
    let mut conditions: Vec<String> = Vec::new();
    let mut i: usize = 0;
    while i < statuses.len()
        invariant
            0 <= i <= statuses.len(),
            views(conditions@) == statuses@.take(i as int).map_values(
                |status: ErrorStatus| "status == "@ + decimal(status.code as nat),
            ),
        decreases statuses.len() - i,
    {
        let mut condition = String::from_str("status == ");
        condition.append(decimal_text(statuses[i].code as u64).as_str());
        let ghost before = views(conditions@);
        conditions.push(condition);
        assert(views(conditions@) =~= before.push(condition@));
        assert(statuses@.take(i + 1).map_values(|status: ErrorStatus| "status == "@ + decimal(status.code as nat))
            =~= statuses@.take(i as int).map_values(|status: ErrorStatus| "status == "@ + decimal(status.code as nat)).push(
            "status == "@ + decimal(statuses@[i as int].code as nat),
        ));
        i += 1;
    }
    assert(statuses@.take(statuses.len() as int) =~= statuses@);
    join_all(&conditions, " || ")
}

/// The rest of a reply method's answer once its success statuses are read: its declared error's
/// statuses answer the declared error (or a fault where the body will not read as one), a fixed
/// fault status the fault its body carries, anything else a fault of its own.
pub open spec fn declared_tail_text(
    result: Seq<char>,
    fn_prefix: Seq<char>,
    wire: Seq<char>,
    error_condition: Seq<char>,
    error_ty: Seq<char>,
) -> Seq<char> {
    "    if ("@ + error_condition + ") {\n      return try {\n        "@ + result
        + ".Declared(Json.decodeFromString(serializer<"@ + error_ty
        + ">(), response.body.decodeToString()))\n      } catch (rejected: Throwable) {\n        "@ + result
        + ".Fault("@ + fn_prefix + "HttpUndeserializablePayload(\""@ + wire
        + "\", rejected.toString()))\n      }\n    }\n    if (status == 400 || status == 404 || status == 500) {\n      return "@
        + result + ".Fault("@ + fn_prefix + "HttpFaultFromBody(\""@ + wire + "\", response))\n    }\n    return "@
        + result + ".Fault(\n      "@ + fn_prefix + "HttpUndeserializablePayload(\""@ + wire
        + "\", \"an unexpected status ($status) answered\"),\n    )\n"@
}

fn declared_tail(result: &str, fn_prefix: &str, wire: &str, error_condition: &str, error_ty: &str) -> (text: String)
    ensures
        text@ == declared_tail_text(result@, fn_prefix@, wire@, error_condition@, error_ty@),
{
    let mut text = String::from_str("    if (");
    text.append(error_condition);
    text.append(") {\n      return try {\n        ");
    text.append(result);
    text.append(".Declared(Json.decodeFromString(serializer<");
    text.append(error_ty);
    text.append(">(), response.body.decodeToString()))\n      } catch (rejected: Throwable) {\n        ");
    text.append(result);
    text.append(".Fault(");
    text.append(fn_prefix);
    text.append("HttpUndeserializablePayload(\"");
    text.append(wire);
    text.append(
        "\", rejected.toString()))\n      }\n    }\n    if (status == 400 || status == 404 || status == 500) {\n      return ",
    );
    text.append(result);
    text.append(".Fault(");
    text.append(fn_prefix);
    text.append("HttpFaultFromBody(\"");
    text.append(wire);
    text.append("\", response))\n    }\n    return ");
    text.append(result);
    text.append(".Fault(\n      ");
    text.append(fn_prefix);
    text.append("HttpUndeserializablePayload(\"");
    text.append(wire);
    text.append("\", \"an unexpected status ($status) answered\"),\n    )\n");
    text
}

/// The name a response header is looked up with.
pub open spec fn find_header_text(fn_prefix: Seq<char>) -> Seq<char> {
    fn_prefix + "HttpFindHeader"@
}

pub fn find_header_call(fn_prefix: &str) -> (text: String)
    ensures
        text@ == find_header_text(fn_prefix@),
{
    let mut text = fn_prefix.to_owned();
    text.append("HttpFindHeader");
    text
}

/// Reads each declared response header, in order, into `headerOutN`; a missing one answers a
/// fault.
pub open spec fn header_reads_text(
    result: Seq<char>,
    fn_prefix: Seq<char>,
    wire: Seq<char>,
    header_names: Seq<String>,
    whole: FieldDef,
    skip: nat,
    count: nat,
) -> Seq<char>
    decreases count,
{
    if count == 0 {
        Seq::empty()
    } else {
        let i = (count - 1) as nat;
        let element = tuple_elements(whole)[(skip + i) as int];
        let raw = "rawHeaderOut"@ + decimal(i);
        header_reads_text(result, fn_prefix, wire, header_names, whole, skip, i) + "      val "@ + raw + " = "@
            + find_header_text(fn_prefix) + "(response.headers, \""@ + header_names[i as int]@
            + "\")\n      ?: return "@ + result + ".Fault(\n        "@ + fn_prefix + "HttpUndeserializablePayload(\""@
            + wire + "\", \"a declared response header was missing\"),\n      )\n      val headerOut"@ + decimal(i)
            + " = "@ + header_decode_text(element, element.array_depth as nat, raw) + "\n"@
    }
}

/// `headerOut0, headerOut1, …` for `count` headers.
pub open spec fn header_idents_text(count: nat) -> Seq<char> {
    join(Seq::new(count, |i: int| "headerOut"@ + decimal(i as nat)), ", "@)
}

/// Reads the headers a success composes past its first `skip` elements: the statements, the
/// names they bind joined by `, `, and how many there are.
fn header_reads(
    result: &str,
    fn_prefix: &str,
    wire: &str,
    header_names: &Vec<String>,
    whole: &FieldDef,
    skip: usize,
) -> (read: (String, String, usize))
    requires
        skip <= 2,
    ensures
        read.2 == header_field_count(header_names@.len(), *whole, skip as nat),
        read.0@ == header_reads_text(result@, fn_prefix@, wire@, header_names@, *whole, skip as nat, read.2 as nat),
        read.1@ == header_idents_text(read.2 as nat),
{
    let no_elements: Vec<FieldDef> = Vec::new();
    let elements = match &whole.field_type {
        FieldDefType::Tuple(elements) => elements,
        _ => &no_elements,
    };
    assert(elements@ == tuple_elements(*whole));
    let declared = header_names.len();
    let count = if elements.len() <= skip {
        0
    } else if declared < elements.len() - skip {
        declared
    } else {
        elements.len() - skip
    };
    let find_header = find_header_call(fn_prefix);
    let mut reads = String::new();
    let mut idents: Vec<String> = Vec::new();
    let mut i: usize = 0;
    while i < count
        invariant
            0 <= i <= count,
            skip <= 2,
            count == header_field_count(header_names@.len(), *whole, skip as nat),
            count <= header_names@.len(),
            count == 0 || skip + count <= elements.len(),
            elements@ == tuple_elements(*whole),
            find_header@ == find_header_text(fn_prefix@),
            reads@ == header_reads_text(result@, fn_prefix@, wire@, header_names@, *whole, skip as nat, i as nat),
            views(idents@) == Seq::new(i as nat, |k: int| "headerOut"@ + decimal(k as nat)),
        decreases count - i,
    {
        let element = &elements[skip + i];
        let index = decimal_text(i as u64);
        let mut raw = String::from_str("rawHeaderOut");
        raw.append(index.as_str());
        let decode = kotlin_header_out_decode(element, element.array_depth, raw.as_str());
        let mut ident = String::from_str("headerOut");
        ident.append(index.as_str());
        reads.append("      val ");
        reads.append(raw.as_str());
        reads.append(" = ");
        reads.append(find_header.as_str());
        reads.append("(response.headers, \"");
        reads.append(header_names[i].as_str());
        reads.append("\")\n      ?: return ");
        reads.append(result);
        reads.append(".Fault(\n        ");
        reads.append(fn_prefix);
        reads.append("HttpUndeserializablePayload(\"");
        reads.append(wire);
        reads.append("\", \"a declared response header was missing\"),\n      )\n      val headerOut");
        reads.append(index.as_str());
        reads.append(" = ");
        reads.append(decode.as_str());
        reads.append("\n");
        let ghost before = views(idents@);
        let ghost pushed = ident@;
        assert(pushed == "headerOut"@ + decimal(i as nat));
        idents.push(ident);
        assert(views(idents@) =~= before.push(pushed));
        assert(views(idents@) =~= Seq::new((i + 1) as nat, |k: int| "headerOut"@ + decimal(k as nat)));
        i += 1;
    }
    (reads, join_all(&idents, ", "), count)
}

/// One streamed arm: the content range (read off the response for a partial answer, absent for
/// a whole one), then the declared headers, then the stream.
pub open spec fn stream_arm_text(
    result: Seq<char>,
    fn_prefix: Seq<char>,
    wire: Seq<char>,
    header_names: Seq<String>,
    success: FieldDef,
    partial: bool,
) -> Seq<char> {
    let range = if partial {
        "      val contentRange = "@ + find_header_text(fn_prefix) + "(response.headers, \"content-range\")\n"@
    } else {
        "      val contentRange: String? = null\n"@
    };
    let count = header_field_count(header_names.len(), success, 1);
    if count == 0 {
        range + "      return "@ + result + ".Ok("@ + result + "Streamed(contentRange, response.bodyStream))\n"@
    } else {
        range + header_reads_text(result, fn_prefix, wire, header_names, success, 1, count) + "      return "@ + result
            + ".Ok("@ + result + "Streamed(contentRange, response.bodyStream, "@ + header_idents_text(count) + "))\n"@
    }
}

fn stream_success_arm(
    result: &str,
    fn_prefix: &str,
    wire: &str,
    header_names: &Vec<String>,
    success: &FieldDef,
    partial: bool,
) -> (text: String)
    ensures
        text@ == stream_arm_text(result@, fn_prefix@, wire@, header_names@, *success, partial),
{
    let mut text = if partial {
        let mut range = String::from_str("      val contentRange = ");
        range.append(find_header_call(fn_prefix).as_str());
        range.append("(response.headers, \"content-range\")\n");
        range
    } else {
        String::from_str("      val contentRange: String? = null\n")
    };
    let (reads, idents, count) = header_reads(result, fn_prefix, wire, header_names, success, 1);
    if count == 0 {
        text.append("      return ");
        text.append(result);
        text.append(".Ok(");
        text.append(result);
        text.append("Streamed(contentRange, response.bodyStream))\n");
    } else {
        text.append(reads.as_str());
        text.append("      return ");
        text.append(result);
        text.append(".Ok(");
        text.append(result);
        text.append("Streamed(contentRange, response.bodyStream, ");
        text.append(idents.as_str());
        text.append("))\n");
    }
    text
}

/// A bytes success: the body, its content type, then the declared headers.
pub open spec fn bytes_block_text(
    result: Seq<char>,
    fn_prefix: Seq<char>,
    wire: Seq<char>,
    header_names: Seq<String>,
    success: FieldDef,
) -> Seq<char> {
    let content_type = "      val contentType = "@ + find_header_text(fn_prefix)
        + "(response.headers, \"content-type\") ?: \"\"\n"@;
    let count = header_field_count(header_names.len(), success, 2);
    if count == 0 {
        content_type + "      return "@ + result + ".Ok("@ + result + "Bytes(response.body, contentType))\n"@
    } else {
        content_type + header_reads_text(result, fn_prefix, wire, header_names, success, 2, count) + "      return "@
            + result + ".Ok("@ + result + "Bytes(response.body, contentType, "@ + header_idents_text(count) + "))\n"@
    }
}

fn bytes_success_decode_block(
    result: &str,
    fn_prefix: &str,
    wire: &str,
    header_names: &Vec<String>,
    success: &FieldDef,
) -> (text: String)
    ensures
        text@ == bytes_block_text(result@, fn_prefix@, wire@, header_names@, *success),
{
    let mut text = String::from_str("      val contentType = ");
    text.append(find_header_call(fn_prefix).as_str());
    text.append("(response.headers, \"content-type\") ?: \"\"\n");
    let (reads, idents, count) = header_reads(result, fn_prefix, wire, header_names, success, 2);
    if count == 0 {
        text.append("      return ");
        text.append(result);
        text.append(".Ok(");
        text.append(result);
        text.append("Bytes(response.body, contentType))\n");
    } else {
        text.append(reads.as_str());
        text.append("      return ");
        text.append(result);
        text.append(".Ok(");
        text.append(result);
        text.append("Bytes(response.body, contentType, ");
        text.append(idents.as_str());
        text.append("))\n");
    }
    text
}

/// The success status's arm: a bytes body as bytes; with no declared header, nothing for a unit
/// success, else the decoded body (a fault where it will not decode); with declared headers, the
/// decoded body and then each header.
pub open spec fn success_block_text(
    result: Seq<char>,
    fn_prefix: Seq<char>,
    wire: Seq<char>,
    shape: HttpShape,
    success: FieldDef,
    recorded: Recorded,
    names: KotlinNames,
    st: Tuples,
) -> (Seq<char>, Tuples) {
    if shape.body_kind == BodyKind::Bytes {
        (bytes_block_text(result, fn_prefix, wire, shape.header_out@, success), st)
    } else if shape.header_out@.len() == 0 {
        if unit_type(success, recorded) {
            ("      return "@ + result + ".Ok\n"@, st)
        } else {
            let (success_ty, s1) = kt_type(success, names, st);
            (
                "      return try {\n        "@ + result + ".Ok(Json.decodeFromString(serializer<"@ + success_ty
                    + ">(), response.body.decodeToString()))\n      } catch (rejected: Throwable) {\n        "@ + result
                    + ".Fault("@ + fn_prefix + "HttpUndeserializablePayload(\""@ + wire
                    + "\", rejected.toString()))\n      }\n"@,
                s1,
            )
        }
    } else {
        let count = header_field_count(shape.header_out@.len(), success, 1);
        let (success_ty, s1) = kt_type(body_element_of(success), names, st);
        (
            "      val value = try {\n        Json.decodeFromString(serializer<"@ + success_ty
                + ">(), response.body.decodeToString())\n      } catch (rejected: Throwable) {\n        return "@
                + result + ".Fault("@ + fn_prefix + "HttpUndeserializablePayload(\""@ + wire
                + "\", rejected.toString()))\n      }\n"@ + header_reads_text(
                result,
                fn_prefix,
                wire,
                shape.header_out@,
                success,
                1,
                count,
            ) + "      return "@ + result + ".Ok("@ + result + "Value(value, "@ + header_idents_text(count) + "))\n"@,
            s1,
        )
    }
}

fn success_decode_block(
    result: &str,
    fn_prefix: &str,
    wire: &str,
    shape: &HttpShape,
    success: &FieldDef,
    recorded: &Recorded,
    names: &KotlinNames,
    tuples: &mut TupleWrappers,
) -> (text: String)
    ensures
        (text@, tuples_of(*final(tuples))) == success_block_text(
            result@,
            fn_prefix@,
            wire@,
            *shape,
            *success,
            *recorded,
            *names,
            tuples_of(*old(tuples)),
        ),
{
    if shape.body_kind == BodyKind::Bytes {
        return bytes_success_decode_block(result, fn_prefix, wire, &shape.header_out, success);
    }
    if shape.header_out.len() == 0 {
        if is_unit_type(success, recorded) {
            let mut text = String::from_str("      return ");
            text.append(result);
            text.append(".Ok\n");
            return text;
        }
        let success_ty = kotlin_typename(success, names, tuples);
        let mut text = String::from_str("      return try {\n        ");
        text.append(result);
        text.append(".Ok(Json.decodeFromString(serializer<");
        text.append(success_ty.as_str());
        text.append(">(), response.body.decodeToString()))\n      } catch (rejected: Throwable) {\n        ");
        text.append(result);
        text.append(".Fault(");
        text.append(fn_prefix);
        text.append("HttpUndeserializablePayload(\"");
        text.append(wire);
        text.append("\", rejected.toString()))\n      }\n");
        return text;
    }
    let success_ty = kotlin_typename(super::body_element_type(success), names, tuples);
    let mut text = String::from_str("      val value = try {\n        Json.decodeFromString(serializer<");
    text.append(success_ty.as_str());
    text.append(">(), response.body.decodeToString())\n      } catch (rejected: Throwable) {\n        return ");
    text.append(result);
    text.append(".Fault(");
    text.append(fn_prefix);
    text.append("HttpUndeserializablePayload(\"");
    text.append(wire);
    text.append("\", rejected.toString()))\n      }\n");
    let (reads, idents, _count) = header_reads(result, fn_prefix, wire, &shape.header_out, success, 1);
    text.append(reads.as_str());
    text.append("      return ");
    text.append(result);
    text.append(".Ok(");
    text.append(result);
    text.append("Value(value, ");
    text.append(idents.as_str());
    text.append("))\n");
    text
}

/// A reply method's answer read by status: a streamed body's partial and whole statuses, or the
/// success status; then the declared error's statuses and the faults.
pub open spec fn reply_decode_text(
    result: Seq<char>,
    fn_prefix: Seq<char>,
    wire: Seq<char>,
    shape: HttpShape,
    error: FieldDef,
    success: FieldDef,
    default_status: u16,
    recorded: Recorded,
    names: KotlinNames,
    st: Tuples,
) -> (Seq<char>, Tuples) {
    let condition = error_condition_text(shape.error_status@, default_status);
    let (error_ty, s1) = kt_type(error, names, st);
    let tail = declared_tail_text(result, fn_prefix, wire, condition, error_ty);
    let ok = decimal(shape.ok_status as nat);
    if shape.body_kind == BodyKind::Stream {
        (
            "    val status = response.status\n    if (status == 206) {\n"@ + stream_arm_text(
                result,
                fn_prefix,
                wire,
                shape.header_out@,
                success,
                true,
            ) + "    }\n    if (status == "@ + ok + ") {\n"@ + stream_arm_text(
                result,
                fn_prefix,
                wire,
                shape.header_out@,
                success,
                false,
            ) + "    }\n"@ + tail,
            s1,
        )
    } else {
        let (block, s2) = success_block_text(result, fn_prefix, wire, shape, success, recorded, names, s1);
        ("    val status = response.status\n    if (status == "@ + ok + ") {\n"@ + block + "    }\n"@ + tail, s2)
    }
}

pub fn reply_decode_stmt(
    result: &str,
    fn_prefix: &str,
    wire: &str,
    shape: &HttpShape,
    error: &FieldDef,
    success: &FieldDef,
    default_status: u16,
    recorded: &Recorded,
    names: &KotlinNames,
    tuples: &mut TupleWrappers,
) -> (text: String)
    ensures
        (text@, tuples_of(*final(tuples))) == reply_decode_text(
            result@,
            fn_prefix@,
            wire@,
            *shape,
            *error,
            *success,
            default_status,
            *recorded,
            *names,
            tuples_of(*old(tuples)),
        ),
{
    let condition = error_condition_expr(&shape.error_status, default_status);
    let error_ty = kotlin_typename(error, names, tuples);
    let tail = declared_tail(result, fn_prefix, wire, condition.as_str(), error_ty.as_str());
    let ok = decimal_text(shape.ok_status as u64);
    if shape.body_kind == BodyKind::Stream {
        let partial = stream_success_arm(result, fn_prefix, wire, &shape.header_out, success, true);
        let full = stream_success_arm(result, fn_prefix, wire, &shape.header_out, success, false);
        let mut text = String::from_str("    val status = response.status\n    if (status == 206) {\n");
        text.append(partial.as_str());
        text.append("    }\n    if (status == ");
        text.append(ok.as_str());
        text.append(") {\n");
        text.append(full.as_str());
        text.append("    }\n");
        text.append(tail.as_str());
        text
    } else {
        let block = success_decode_block(result, fn_prefix, wire, shape, success, recorded, names, tuples);
        let mut text = String::from_str("    val status = response.status\n    if (status == ");
        text.append(ok.as_str());
        text.append(") {\n");
        text.append(block.as_str());
        text.append("    }\n");
        text.append(tail.as_str());
        text
    }
}

} // verus!
