//! How one TypeScript `http_rest` method sends its request and reads the answer by status: the
//! declared status into the success (with each declared response header read back beside it),
//! a mapped status into the declared error, a fixed fault status into the fault its body carries,
//! and anything else into a fault naming the status.
use crate::features::dart::is_integer;
use crate::features::service_schema::kotlin_http_client::header_field_count;
use crate::features::service_schema::result::tuple_elements;
use crate::field_type::{decimal, decimal_text, is_unit_type, ts_typename, typescript_typename, unit_type, FieldDef, FieldDefType, Recorded};
use crate::service_def::{method_name, BodyKind, ErrorStatus, HttpShape, OperationDef, OperationOutcome};
use crate::text::{join, join_all, views};
use vstd::prelude::*;

verus! {

/// What a transport that could not carry the call answers: thrown by a one-way method, returned
/// as a fault by a reply method.
pub open spec fn transport_failure_text(prefix: Seq<char>, operation: OperationDef) -> Seq<char> {
    let wire = operation.wire_name@;
    match operation.outcome {
        OperationOutcome::OneWay => "        throw "@ + prefix + "HttpRefused(\n          "@ + prefix
            + "HttpTransportFailure(\""@ + wire + "\", String(uncarried)),\n        );\n"@,
        OperationOutcome::Reply { .. } =>
            "        return {\n          ok: false,\n          error: {\n            isServiceFault: true,\n            fault: "@
            + prefix + "HttpTransportFailure(\""@ + wire + "\", String(uncarried)),\n          },\n        };\n"@,
    }
}

/// The request handed to the transport, and what its failure answers. A service declaring a
/// multipart operation hands every request its `parts`.
pub open spec fn send_text(prefix: Seq<char>, operation: OperationDef, has_multipart: bool) -> Seq<char> {
    let parts_field = if has_multipart {
        "\n          parts,"@
    } else {
        ""@
    };
    "      let response;\n      try {\n        response = await transport.send({\n          method: \""@ + method_name(
        operation.http.method,
    ) + "\",\n          path,\n          query,\n          headers,\n          body,"@ + parts_field
        + "\n        });\n      } catch (uncarried) {\n"@ + transport_failure_text(prefix, operation) + "      }\n"@
}

pub fn send_stmt(prefix: &str, operation: &OperationDef, has_multipart: bool) -> (text: String)
    ensures
        text@ == send_text(prefix@, *operation, has_multipart),
{
    let wire = operation.wire_name.as_str();
    let failure = match operation.outcome {
        OperationOutcome::OneWay => {
            let mut text = String::from_str("        throw ");
            text.append(prefix);
            text.append("HttpRefused(\n          ");
            text.append(prefix);
            text.append("HttpTransportFailure(\"");
            text.append(wire);
            text.append("\", String(uncarried)),\n        );\n");
            text
        },
        OperationOutcome::Reply { .. } => {
            let mut text = String::from_str(
                "        return {\n          ok: false,\n          error: {\n            isServiceFault: true,\n            fault: ",
            );
            text.append(prefix);
            text.append("HttpTransportFailure(\"");
            text.append(wire);
            text.append("\", String(uncarried)),\n          },\n        };\n");
            text
        },
    };
    let parts_field = if has_multipart {
        "\n          parts,"
    } else {
        ""
    };
    let mut text = String::from_str(
        "      let response;\n      try {\n        response = await transport.send({\n          method: \"",
    );
    text.append(operation.http.method.name());
    text.append("\",\n          path,\n          query,\n          headers,\n          body,");
    text.append(parts_field);
    text.append("\n        });\n      } catch (uncarried) {\n");
    text.append(failure.as_str());
    text.append("      }\n");
    text
}

/// A one-way method's reading of the answer: nothing on the declared status, a thrown refusal
/// everywhere else.
pub open spec fn one_way_decode_text(prefix: Seq<char>, ok_status: u16, wire: Seq<char>) -> Seq<char> {
    "      const status = response.status;\n      if (status === "@ + decimal(ok_status as nat)
        + ") {\n        return;\n      }\n      if (status === 400 || status === 404 || status === 500) {\n        throw "@
        + prefix + "HttpRefused("@ + prefix + "HttpFaultFromBody(\""@ + wire
        + "\", response.body));\n      }\n      throw "@ + prefix + "HttpRefused(\n        "@ + prefix
        + "HttpUndeserializablePayload(\n          \""@ + wire
        + "\",\n          `an unexpected status (${status}) answered`,\n        ),\n      );\n"@
}

pub fn one_way_decode_stmt(prefix: &str, ok_status: u16, wire: &str) -> (text: String)
    ensures
        text@ == one_way_decode_text(prefix@, ok_status, wire@),
{
    let mut text = String::from_str("      const status = response.status;\n      if (status === ");
    text.append(decimal_text(ok_status as u64).as_str());
    text.append(
        ") {\n        return;\n      }\n      if (status === 400 || status === 404 || status === 500) {\n        throw ",
    );
    text.append(prefix);
    text.append("HttpRefused(");
    text.append(prefix);
    text.append("HttpFaultFromBody(\"");
    text.append(wire);
    text.append("\", response.body));\n      }\n      throw ");
    text.append(prefix);
    text.append("HttpRefused(\n        ");
    text.append(prefix);
    text.append("HttpUndeserializablePayload(\n          \"");
    text.append(wire);
    text.append("\",\n          `an unexpected status (${status}) answered`,\n        ),\n      );\n");
    text
}

/// One `status === N` per status the operation mapped its error to, joined by `||`; the default
/// status where it mapped none.
pub open spec fn error_condition_text(statuses: Seq<ErrorStatus>, default_status: u16) -> Seq<char> {
    if statuses.len() == 0 {
        "status === "@ + decimal(default_status as nat)
    } else {
        join(statuses.map_values(|status: ErrorStatus| "status === "@ + decimal(status.code as nat)), " || "@)
    }
}

pub fn error_condition_expr(statuses: &Vec<ErrorStatus>, default_status: u16) -> (text: String)
    ensures
        text@ == error_condition_text(statuses@, default_status),
{
    if statuses.len() == 0 {
        let mut text = String::from_str("status === ");
        text.append(decimal_text(default_status as u64).as_str());
        return text;
    }
    let mut conditions: Vec<String> = Vec::new();
    let mut i: usize = 0;
    while i < statuses.len()
        invariant
            0 <= i <= statuses.len(),
            views(conditions@) == statuses@.take(i as int).map_values(
                |status: ErrorStatus| "status === "@ + decimal(status.code as nat),
            ),
        decreases statuses.len() - i,
    {
        let mut condition = String::from_str("status === ");
        condition.append(decimal_text(statuses[i].code as u64).as_str());
        let ghost before = views(conditions@);
        conditions.push(condition);
        assert(views(conditions@) =~= before.push(condition@));
        assert(statuses@.take(i + 1).map_values(|status: ErrorStatus| "status === "@ + decimal(status.code as nat))
            =~= statuses@.take(i as int).map_values(|status: ErrorStatus| "status === "@ + decimal(status.code as nat)).push(
            "status === "@ + decimal(statuses@[i as int].code as nat),
        ));
        i += 1;
    }
    assert(statuses@.take(statuses.len() as int) =~= statuses@);
    join_all(&conditions, " || ")
}

/// The statements that read the body into `value` as `ty`, answering a fault where it will not
/// parse.
pub open spec fn value_parse_text(ty: Seq<char>, prefix: Seq<char>, wire: Seq<char>) -> Seq<char> {
    "        let value: "@ + ty + ";\n        try {\n          value = JSON.parse(response.body) as "@ + ty
        + ";\n        } catch (rejected) {\n          return {\n            ok: false,\n            error: {\n              isServiceFault: true,\n              fault: "@
        + prefix + "HttpUndeserializablePayload(\""@ + wire
        + "\", String(rejected)),\n            },\n          };\n        }\n"@
}

fn value_parse(ty: &str, prefix: &str, wire: &str) -> (text: String)
    ensures
        text@ == value_parse_text(ty@, prefix@, wire@),
{
    let mut text = String::from_str("        let value: ");
    text.append(ty);
    text.append(";\n        try {\n          value = JSON.parse(response.body) as ");
    text.append(ty);
    text.append(
        ";\n        } catch (rejected) {\n          return {\n            ok: false,\n            error: {\n              isServiceFault: true,\n              fault: ",
    );
    text.append(prefix);
    text.append("HttpUndeserializablePayload(\"");
    text.append(wire);
    text.append("\", String(rejected)),\n            },\n          };\n        }\n");
    text
}

/// The expression that reads a declared response header's text `raw` back as the element's type:
/// a list split on commas, a `bool` compared with `"true"`, a number through `Number`, any other
/// type as the text itself.
pub open spec fn header_value_text(element: FieldDef, level: nat, raw: Seq<char>) -> Seq<char>
    decreases level,
{
    if level > 0 {
        "("@ + raw + ").split(\",\").map((piece: string) => "@ + header_value_text(element, (level - 1) as nat, "piece"@)
            + ")"@
    } else if element.field_type is Boolean {
        "(("@ + raw + ") === \"true\")"@
    } else if is_integer(element.field_type) || element.field_type is F32 || element.field_type is F64 {
        "Number("@ + raw + ")"@
    } else {
        raw
    }
}

pub fn header_out_value_expr(element: &FieldDef, level: u8, raw: &str) -> (text: String)
    ensures
        text@ == header_value_text(*element, level as nat, raw@),
    decreases level,
{
    if level > 0 {
        let inner = header_out_value_expr(element, level - 1, "piece");
        let mut text = String::from_str("(");
        text.append(raw);
        text.append(").split(\",\").map((piece: string) => ");
        text.append(inner.as_str());
        text.append(")");
        return text;
    }
    let (head, tail) = match &element.field_type {
        FieldDefType::Boolean => ("((", ") === \"true\")"),
        FieldDefType::U8 | FieldDefType::U16 | FieldDefType::U32 | FieldDefType::U64 | FieldDefType::I8
        | FieldDefType::I16 | FieldDefType::I32 | FieldDefType::I64 | FieldDefType::Usize | FieldDefType::Isize
        | FieldDefType::F32 | FieldDefType::F64 => ("Number(", ")"),
        _ => {
            return raw.to_owned();
        },
    };
    let mut text = String::from_str(head);
    text.append(raw);
    text.append(tail);
    text
}

/// Reads the declared response header `name` into `headerOut{index}`, typed as `element`,
/// answering a fault where the response does not carry it.
pub open spec fn header_read_text(
    prefix: Seq<char>,
    wire: Seq<char>,
    name: Seq<char>,
    element: FieldDef,
    index: nat,
    recorded: Recorded,
) -> Seq<char> {
    let raw = "rawHeaderOut"@ + decimal(index);
    "        const "@ + raw + " = response.headers.find(\n          ([name]) => name.toLowerCase() === \""@ + name
        + "\",\n        );\n        if ("@ + raw
        + " === undefined) {\n          return {\n            ok: false,\n            error: {\n              isServiceFault: true,\n              fault: "@
        + prefix + "HttpUndeserializablePayload(\n                \""@ + wire
        + "\",\n                \"a declared response header was missing\",\n              ),\n            },\n          };\n        }\n"@
        + "        const headerOut"@ + decimal(index) + " = "@ + header_value_text(
        element,
        element.array_depth as nat,
        raw + "[1]"@,
    ) + " as "@ + ts_typename(element, recorded) + ";\n"@
}

fn header_read(prefix: &str, wire: &str, name: &str, element: &FieldDef, index: u64, recorded: &Recorded) -> (text: String)
    ensures
        text@ == header_read_text(prefix@, wire@, name@, *element, index as nat, *recorded),
{
    let digits = decimal_text(index);
    let mut raw = String::from_str("rawHeaderOut");
    raw.append(digits.as_str());
    let mut text = String::from_str("        const ");
    text.append(raw.as_str());
    text.append(" = response.headers.find(\n          ([name]) => name.toLowerCase() === \"");
    text.append(name);
    text.append("\",\n        );\n        if (");
    text.append(raw.as_str());
    text.append(
        " === undefined) {\n          return {\n            ok: false,\n            error: {\n              isServiceFault: true,\n              fault: ",
    );
    text.append(prefix);
    text.append("HttpUndeserializablePayload(\n                \"");
    text.append(wire);
    text.append(
        "\",\n                \"a declared response header was missing\",\n              ),\n            },\n          };\n        }\n",
    );
    raw.append("[1]");
    text.append("        const headerOut");
    text.append(digits.as_str());
    text.append(" = ");
    text.append(header_out_value_expr(element, element.array_depth, raw.as_str()).as_str());
    text.append(" as ");
    text.append(typescript_typename(element, recorded).as_str());
    text.append(";\n");
    text
}

/// Reads the first `count` declared response headers, each typed as the success tuple's element
/// `skip` places further on.
pub open spec fn header_reads_text(
    prefix: Seq<char>,
    wire: Seq<char>,
    header_names: Seq<String>,
    whole: FieldDef,
    skip: nat,
    count: nat,
    recorded: Recorded,
) -> Seq<char>
    decreases count,
{
    if count == 0 {
        Seq::empty()
    } else {
        let i = (count - 1) as nat;
        header_reads_text(prefix, wire, header_names, whole, skip, i, recorded) + header_read_text(
            prefix,
            wire,
            header_names[i as int]@,
            tuple_elements(whole)[(skip + i) as int],
            i,
            recorded,
        )
    }
}

/// `headerOut0, headerOut1, …` for `count` headers.
pub open spec fn header_idents_text(count: nat) -> Seq<char> {
    join(Seq::new(count, |i: int| "headerOut"@ + decimal(i as nat)), ", "@)
}

/// Reads the headers a tuple composes past its first `skip` elements: the statements, the names
/// they bind joined by `, `, and how many there are.
fn header_reads(
    prefix: &str,
    wire: &str,
    header_names: &Vec<String>,
    whole: &FieldDef,
    skip: usize,
    recorded: &Recorded,
) -> (read: (String, String, usize))
    requires
        skip <= 2,
    ensures
        read.2 == header_field_count(header_names@.len(), *whole, skip as nat),
        read.0@ == header_reads_text(prefix@, wire@, header_names@, *whole, skip as nat, read.2 as nat, *recorded),
        read.1@ == header_idents_text(read.2 as nat),
{
    let no_elements: Vec<FieldDef> = Vec::new();
    let elements = match &whole.field_type {
        FieldDefType::Tuple(elements) => elements,
        _ => &no_elements,
    };
    assert(elements@ == tuple_elements(*whole));
    let declared = header_names.len();
    let count = if elements.len() <= skip {
        0
    } else if declared < elements.len() - skip {
        declared
    } else {
        elements.len() - skip
    };
    let mut reads = String::new();
    let mut idents: Vec<String> = Vec::new();
    let mut i: usize = 0;
    while i < count
        invariant
            0 <= i <= count,
            skip <= 2,
            count == header_field_count(header_names@.len(), *whole, skip as nat),
            count <= header_names@.len(),
            count == 0 || skip + count <= elements.len(),
            elements@ == tuple_elements(*whole),
            reads@ == header_reads_text(prefix@, wire@, header_names@, *whole, skip as nat, i as nat, *recorded),
            views(idents@) == Seq::new(i as nat, |k: int| "headerOut"@ + decimal(k as nat)),
        decreases count - i,
    {
        let element = &elements[skip + i];
        reads.append(header_read(prefix, wire, header_names[i].as_str(), element, i as u64, recorded).as_str());
        let mut ident = String::from_str("headerOut");
        ident.append(decimal_text(i as u64).as_str());
        let ghost before = views(idents@);
        let ghost pushed = ident@;
        idents.push(ident);
        assert(views(idents@) =~= before.push(pushed));
        assert(views(idents@) =~= Seq::new((i + 1) as nat, |k: int| "headerOut"@ + decimal(k as nat)));
        i += 1;
    }
    (reads, join_all(&idents, ", "), count)
}

/// The content type every bytes answer reads back beside the body.
pub open spec fn content_type_text() -> Seq<char> {
    "        const contentType = response.headers.find(\n          ([name]) => name.toLowerCase() === \"content-type\",\n        )?.[1] ?? \"\";\n"@
}

/// A bytes answer: the raw body stands for the bytes, with the content type read back beside it,
/// then each declared response header, shifted one place for the content type.
pub open spec fn bytes_block_text(prefix: Seq<char>, wire: Seq<char>, shape: HttpShape, success: FieldDef, recorded: Recorded) -> Seq<
    char,
> {
    if shape.header_out@.len() == 0 {
        content_type_text() + "        return { ok: true, value: [response.body, contentType] };\n"@
    } else {
        let count = header_field_count(shape.header_out@.len(), success, 2);
        content_type_text() + header_reads_text(prefix, wire, shape.header_out@, success, 2, count, recorded)
            + "        return { ok: true, value: [response.body, contentType, "@ + header_idents_text(count) + "] };\n"@
    }
}

fn bytes_success_decode_block(prefix: &str, wire: &str, shape: &HttpShape, success: &FieldDef, recorded: &Recorded) -> (text: String)
    ensures
        text@ == bytes_block_text(prefix@, wire@, *shape, *success, *recorded),
{
    let mut text = String::from_str(
        "        const contentType = response.headers.find(\n          ([name]) => name.toLowerCase() === \"content-type\",\n        )?.[1] ?? \"\";\n",
    );
    if shape.header_out.len() == 0 {
        text.append("        return { ok: true, value: [response.body, contentType] };\n");
        return text;
    }
    let (reads, idents, _count) = header_reads(prefix, wire, &shape.header_out, success, 2, recorded);
    text.append(reads.as_str());
    text.append("        return { ok: true, value: [response.body, contentType, ");
    text.append(idents.as_str());
    text.append("] };\n");
    text
}

/// The statements that read a success answer once its status matched: the bytes answer for a
/// bytes body; nothing at all for a unit reply; the parsed body for an ordinary reply; the body
/// and each declared response header, as a tuple, otherwise.
pub open spec fn success_block_text(prefix: Seq<char>, wire: Seq<char>, shape: HttpShape, success: FieldDef, recorded: Recorded) -> Seq<
    char,
> {
    if shape.body_kind == BodyKind::Bytes {
        bytes_block_text(prefix, wire, shape, success, recorded)
    } else if shape.header_out@.len() == 0 {
        if unit_type(success, recorded) {
            "        return { ok: true, value: undefined };\n"@
        } else {
            value_parse_text(ts_typename(success, recorded), prefix, wire) + "        return { ok: true, value };\n"@
        }
    } else {
        let elements = tuple_elements(success);
        let body_ty = if elements.len() > 0 {
            ts_typename(elements[0], recorded)
        } else {
            ts_typename(success, recorded)
        };
        let count = header_field_count(shape.header_out@.len(), success, 1);
        value_parse_text(body_ty, prefix, wire) + header_reads_text(prefix, wire, shape.header_out@, success, 1, count, recorded)
            + "        return { ok: true, value: [value, "@ + header_idents_text(count) + "] };\n"@
    }
}

fn success_decode_block(prefix: &str, wire: &str, shape: &HttpShape, success: &FieldDef, recorded: &Recorded) -> (text: String)
    ensures
        text@ == success_block_text(prefix@, wire@, *shape, *success, *recorded),
{
    if shape.body_kind == BodyKind::Bytes {
        return bytes_success_decode_block(prefix, wire, shape, success, recorded);
    }
    if shape.header_out.len() == 0 {
        if is_unit_type(success, recorded) {
            return String::from_str("        return { ok: true, value: undefined };\n");
        }
        let mut text = value_parse(typescript_typename(success, recorded).as_str(), prefix, wire);
        text.append("        return { ok: true, value };\n");
        return text;
    }
    let body_ty = match &success.field_type {
        FieldDefType::Tuple(elements) if elements.len() > 0 => typescript_typename(&elements[0], recorded),
        _ => typescript_typename(success, recorded),
    };
    let mut text = value_parse(body_ty.as_str(), prefix, wire);
    let (reads, idents, _count) = header_reads(prefix, wire, &shape.header_out, success, 1, recorded);
    text.append(reads.as_str());
    text.append("        return { ok: true, value: [value, ");
    text.append(idents.as_str());
    text.append("] };\n");
    text
}

/// A reply method's reading of the answer: the declared status into the success, a mapped status
/// into the declared error (a fault where its body will not parse), a fixed fault status into the
/// fault its body carries, and anything else into a fault naming the status.
pub open spec fn reply_decode_text(
    prefix: Seq<char>,
    wire: Seq<char>,
    shape: HttpShape,
    error: FieldDef,
    success: FieldDef,
    default_status: u16,
    recorded: Recorded,
) -> Seq<char> {
    let error_ty = ts_typename(error, recorded);
    "      const status = response.status;\n      if (status === "@ + decimal(shape.ok_status as nat) + ") {\n"@
        + success_block_text(prefix, wire, shape, success, recorded) + "      }\n      if ("@ + error_condition_text(
        shape.error_status@,
        default_status,
    ) + ") {\n        let declared: "@ + error_ty + ";\n        try {\n          declared = JSON.parse(response.body) as "@
        + error_ty
        + ";\n        } catch (rejected) {\n          return {\n            ok: false,\n            error: {\n              isServiceFault: true,\n              fault: "@
        + prefix + "HttpUndeserializablePayload(\""@ + wire
        + "\", String(rejected)),\n            },\n          };\n        }\n        return { ok: false, error: declared };\n      }\n      if (status === 400 || status === 404 || status === 500) {\n        return {\n          ok: false,\n          error: {\n            isServiceFault: true,\n            fault: "@
        + prefix + "HttpFaultFromBody(\""@ + wire
        + "\", response.body),\n          },\n        };\n      }\n      return {\n        ok: false,\n        error: {\n          isServiceFault: true,\n          fault: "@
        + prefix + "HttpUndeserializablePayload(\n            \""@ + wire
        + "\",\n            `an unexpected status (${status}) answered`,\n          ),\n        },\n      };\n"@
}

pub fn reply_decode_stmt(
    prefix: &str,
    wire: &str,
    shape: &HttpShape,
    error: &FieldDef,
    success: &FieldDef,
    default_status: u16,
    recorded: &Recorded,
) -> (text: String)
    ensures
        text@ == reply_decode_text(prefix@, wire@, *shape, *error, *success, default_status, *recorded),
{
    let error_ty = typescript_typename(error, recorded);
    let mut text = String::from_str("      const status = response.status;\n      if (status === ");
    text.append(decimal_text(shape.ok_status as u64).as_str());
    text.append(") {\n");
    text.append(success_decode_block(prefix, wire, shape, success, recorded).as_str());
    text.append("      }\n      if (");
    text.append(error_condition_expr(&shape.error_status, default_status).as_str());
    text.append(") {\n        let declared: ");
    text.append(error_ty.as_str());
    text.append(";\n        try {\n          declared = JSON.parse(response.body) as ");
    text.append(error_ty.as_str());
    text.append(
        ";\n        } catch (rejected) {\n          return {\n            ok: false,\n            error: {\n              isServiceFault: true,\n              fault: ",
    );
    text.append(prefix);
    text.append("HttpUndeserializablePayload(\"");
    text.append(wire);
    text.append(
        "\", String(rejected)),\n            },\n          };\n        }\n        return { ok: false, error: declared };\n      }\n      if (status === 400 || status === 404 || status === 500) {\n        return {\n          ok: false,\n          error: {\n            isServiceFault: true,\n            fault: ",
    );
    text.append(prefix);
    text.append("HttpFaultFromBody(\"");
    text.append(wire);
    text.append(
        "\", response.body),\n          },\n        };\n      }\n      return {\n        ok: false,\n        error: {\n          isServiceFault: true,\n          fault: ",
    );
    text.append(prefix);
    text.append("HttpUndeserializablePayload(\n            \"");
    text.append(wire);
    text.append("\",\n            `an unexpected status (${status}) answered`,\n          ),\n        },\n      };\n");
    text
}

/// How a method reads the answer: the one-way reading or the reply reading, by its outcome.
pub open spec fn decode_text(prefix: Seq<char>, operation: OperationDef, default_status: u16, recorded: Recorded) -> Seq<char> {
    match operation.outcome {
        OperationOutcome::OneWay => one_way_decode_text(prefix, operation.http.ok_status, operation.wire_name@),
        OperationOutcome::Reply { error, success } => reply_decode_text(
            prefix,
            operation.wire_name@,
            operation.http,
            error,
            success,
            default_status,
            recorded,
        ),
    }
}

pub fn decode_stmt(prefix: &str, operation: &OperationDef, default_status: u16, recorded: &Recorded) -> (text: String)
    ensures
        text@ == decode_text(prefix@, *operation, default_status, *recorded),
{
    match &operation.outcome {
        OperationOutcome::OneWay => one_way_decode_stmt(prefix, operation.http.ok_status, operation.wire_name.as_str()),
        OperationOutcome::Reply { error, success } => reply_decode_stmt(
            prefix,
            operation.wire_name.as_str(),
            &operation.http,
            error,
            success,
            default_status,
            recorded,
        ),
    }
}

} // verus!
