//! The dispatcher a TypeScript implementation is driven through: one arm per operation that
//! parses the payload, reads each bound header and part, calls the implementation, and answers
//! the envelope with the headers the outcome carries.
use crate::features::service_schema::message::{schema, schema_text};
use crate::features::service_schema::result::tuple_elements;
use crate::field_type::{decimal, decimal_text, FieldDef, FieldDefType, Recorded};
use crate::rename_rule::{camel_case, camel_case_of_field, camel_case_of_variant, lower_first};
use crate::service_def::{BodyKind, HeaderBinding, OperationDef, OperationOutcome, ServiceDef};
use crate::text::{join, join_all, views};
use vstd::prelude::*;

pub use crate::features::service_schema::kotlin_ws_client::any_header_in;

verus! {

pub(crate) fn has_header_in(service: &ServiceDef) -> (found: bool)
    ensures
        found == any_header_in(service.operations@),
{
    crate::features::service_schema::kotlin_ws_client::declares_header_in(service)
}

/// The parse that runs before the implementation is called: a payload failing the message's
/// schema is answered with a framed fault, and the implementation is never reached.
pub open spec fn payload_check_text(prefix: Seq<char>, operation: OperationDef, recorded: Recorded) -> Seq<char> {
    "        const received = "@ + schema_text(operation, recorded)
        + ".safeParse(payload);\n        if (!received.success) {\n          return "@ + prefix + "Framed("@ + prefix
        + "InboundFault(\""@ + operation.wire_name@ + "\", received.error.issues));\n        }\n"@
}

fn payload_check(prefix: &str, operation: &OperationDef, recorded: &Recorded) -> (text: String)
    ensures
        text@ == payload_check_text(prefix@, *operation, *recorded),
{
    let mut text = String::from_str("        const received = ");
    text.append(schema(operation, recorded).as_str());
    text.append(".safeParse(payload);\n        if (!received.success) {\n          return ");
    text.append(prefix);
    text.append("Framed(");
    text.append(prefix);
    text.append("InboundFault(\"");
    text.append(operation.wire_name.as_str());
    text.append("\", received.error.issues));\n        }\n");
    text
}

/// Reads one `header_in` binding, checked against its schema, refusing through a framed fault.
pub open spec fn header_read_text(prefix: Seq<char>, wire: Seq<char>, binding: HeaderBinding) -> Seq<char> {
    let read = camel_case(binding.parameter@) + "Header"@;
    "        const "@ + read + " = "@ + prefix + "RequestHeader(\""@ + wire + "\", headers, \""@ + binding.name@ + "\", "@
        + binding.schema@ + ");\n        if (!"@ + read + ".ok) {\n          return "@ + prefix + "Framed("@ + read
        + ".fault);\n        }\n"@
}

/// Reads one `part` binding, refusing through a framed fault where it was not carried.
pub open spec fn part_read_text(prefix: Seq<char>, wire: Seq<char>, part: HeaderBinding) -> Seq<char> {
    let name = camel_case(part.parameter@);
    "        const "@ + name + " = parts.find(([name]) => name === \""@ + part.name@ + "\")?.[1];\n        if ("@ + name
        + " === undefined) {\n          return "@ + prefix + "Framed("@ + prefix + "InboundFault(\""@ + wire
        + "\", [{ path: [\""@ + part.name@ + "\"], message: \"a required multipart part was not carried\" }]));\n        }\n"@
}

fn header_read(prefix: &str, wire: &str, binding: &HeaderBinding) -> (text: String)
    ensures
        text@ == header_read_text(prefix@, wire@, *binding),
{
    let mut read = camel_case_of_field(binding.parameter.as_str());
    read.append("Header");
    let mut stmt = String::from_str("        const ");
    stmt.append(read.as_str());
    stmt.append(" = ");
    stmt.append(prefix);
    stmt.append("RequestHeader(\"");
    stmt.append(wire);
    stmt.append("\", headers, \"");
    stmt.append(binding.name.as_str());
    stmt.append("\", ");
    stmt.append(binding.schema.as_str());
    stmt.append(");\n        if (!");
    stmt.append(read.as_str());
    stmt.append(".ok) {\n          return ");
    stmt.append(prefix);
    stmt.append("Framed(");
    stmt.append(read.as_str());
    stmt.append(".fault);\n        }\n");
    stmt
}

fn part_read(prefix: &str, wire: &str, part: &HeaderBinding) -> (text: String)
    ensures
        text@ == part_read_text(prefix@, wire@, *part),
{
    let name = camel_case_of_field(part.parameter.as_str());
    let mut stmt = String::from_str("        const ");
    stmt.append(name.as_str());
    stmt.append(" = parts.find(([name]) => name === \"");
    stmt.append(part.name.as_str());
    stmt.append("\")?.[1];\n        if (");
    stmt.append(name.as_str());
    stmt.append(" === undefined) {\n          return ");
    stmt.append(prefix);
    stmt.append("Framed(");
    stmt.append(prefix);
    stmt.append("InboundFault(\"");
    stmt.append(wire);
    stmt.append("\", [{ path: [\"");
    stmt.append(part.name.as_str());
    stmt.append("\"], message: \"a required multipart part was not carried\" }]));\n        }\n");
    stmt
}

pub open spec fn header_reads_text(prefix: Seq<char>, wire: Seq<char>, bindings: Seq<HeaderBinding>) -> Seq<char>
    decreases bindings.len(),
{
    if bindings.len() == 0 {
        Seq::empty()
    } else {
        header_reads_text(prefix, wire, bindings.drop_last()) + header_read_text(prefix, wire, bindings.last())
    }
}

pub open spec fn part_reads_text(prefix: Seq<char>, wire: Seq<char>, parts: Seq<HeaderBinding>) -> Seq<char>
    decreases parts.len(),
{
    if parts.len() == 0 {
        Seq::empty()
    } else {
        part_reads_text(prefix, wire, parts.drop_last()) + part_read_text(prefix, wire, parts.last())
    }
}

/// The arguments the implementation is called with: the context, the parsed message, each read
/// header's value, then each read part.
pub open spec fn call_args_text(operation: OperationDef) -> Seq<char> {
    join(
        seq!["ctx"@, "received.data"@] + operation.http.header_in@.map_values(
            |binding: HeaderBinding| camel_case(binding.parameter@) + "Header.value"@,
        ) + operation.http.multipart_parts@.map_values(|part: HeaderBinding| camel_case(part.parameter@)),
        ", "@,
    )
}

fn binding_reads(prefix: &str, operation: &OperationDef) -> (read: (String, String))
    ensures
        read.0@ == header_reads_text(prefix@, operation.wire_name@, operation.http.header_in@) + part_reads_text(
            prefix@,
            operation.wire_name@,
            operation.http.multipart_parts@,
        ),
        read.1@ == call_args_text(*operation),
{
    let wire = operation.wire_name.as_str();
    let headers = &operation.http.header_in;
    let parts = &operation.http.multipart_parts;
    let mut stmt = String::new();
    let mut args: Vec<String> = Vec::new();
    args.push(String::from_str("ctx"));
    args.push(String::from_str("received.data"));
    let ghost head = views(args@);
    assert(head =~= seq!["ctx"@, "received.data"@]);
    let mut i: usize = 0;
    while i < headers.len()
        invariant
            0 <= i <= headers.len(),
            headers == &operation.http.header_in,
            wire@ == operation.wire_name@,
            head == seq!["ctx"@, "received.data"@],
            stmt@ == header_reads_text(prefix@, wire@, headers@.take(i as int)),
            views(args@) == head + headers@.take(i as int).map_values(
                |binding: HeaderBinding| camel_case(binding.parameter@) + "Header.value"@,
            ),
        decreases headers.len() - i,
    {
        assert(headers@.take(i + 1).drop_last() =~= headers@.take(i as int));
        let binding = &headers[i];
        stmt.append(header_read(prefix, wire, binding).as_str());
        let mut arg = camel_case_of_field(binding.parameter.as_str());
        arg.append("Header.value");
        let ghost before = views(args@);
        args.push(arg);
        proof {
            assert(views(args@) =~= before.push(arg@));
            assert(headers@.take(i + 1).map_values(
                |binding: HeaderBinding| camel_case(binding.parameter@) + "Header.value"@,
            ) =~= headers@.take(i as int).map_values(
                |binding: HeaderBinding| camel_case(binding.parameter@) + "Header.value"@,
            ).push(arg@));
        }
        i += 1;
    }
    assert(headers@.take(headers.len() as int) =~= headers@);
    let ghost with_headers = views(args@);
    let ghost header_stmts = stmt@;
    let mut j: usize = 0;
    while j < parts.len()
        invariant
            0 <= j <= parts.len(),
            parts == &operation.http.multipart_parts,
            wire@ == operation.wire_name@,
            stmt@ == header_stmts + part_reads_text(prefix@, wire@, parts@.take(j as int)),
            views(args@) == with_headers + parts@.take(j as int).map_values(|part: HeaderBinding| camel_case(part.parameter@)),
        decreases parts.len() - j,
    {
        assert(parts@.take(j + 1).drop_last() =~= parts@.take(j as int));
        let part = &parts[j];
        stmt.append(part_read(prefix, wire, part).as_str());
        let name = camel_case_of_field(part.parameter.as_str());
        let ghost before = views(args@);
        args.push(name);
        proof {
            assert(views(args@) =~= before.push(camel_case(part.parameter@)));
            assert(parts@.take(j + 1).map_values(|part: HeaderBinding| camel_case(part.parameter@)) =~= parts@.take(
                j as int,
            ).map_values(|part: HeaderBinding| camel_case(part.parameter@)).push(camel_case(part.parameter@)));
        }
        j += 1;
    }
    assert(parts@.take(parts.len() as int) =~= parts@);
    proof {
        assert(views(args@) =~= seq!["ctx"@, "received.data"@] + operation.http.header_in@.map_values(
            |binding: HeaderBinding| camel_case(binding.parameter@) + "Header.value"@,
        ) + operation.http.multipart_parts@.map_values(|part: HeaderBinding| camel_case(part.parameter@)));
    }
    (stmt, join_all(&args, ", "))
}

/// The header types a tuple carries after its body: its last `count` elements (all of them where
/// it has fewer).
pub open spec fn header_types_of(count: nat, whole: FieldDef) -> Seq<FieldDef> {
    let elements = tuple_elements(whole);
    if elements.len() >= count {
        elements.subrange(elements.len() - count, elements.len() as int)
    } else {
        elements
    }
}

/// The header pushes of one side of a split, for the first `count` named headers.
pub open spec fn split_pushes_text(margin: Seq<char>, names: Seq<String>, types: Seq<FieldDef>, ident_prefix: Seq<char>, count: nat) -> Seq<char>
    decreases count,
{
    if count == 0 {
        Seq::empty()
    } else {
        let k = (count - 1) as nat;
        let ident = ident_prefix + decimal(k);
        let push = "replied.push([\""@ + names[k as int]@ + "\", JSON.stringify("@ + ident + ")]);"@;
        split_pushes_text(margin, names, types, ident_prefix, k) + if types[k as int].optional {
            margin + "if ("@ + ident + " != null) "@ + push + "\n"@
        } else {
            margin + push + "\n"@
        }
    }
}

/// `{prefix}0, {prefix}1, …` for `count` names.
pub open spec fn idents_text(ident_prefix: Seq<char>, count: nat) -> Seq<char> {
    join(Seq::new(count, |i: int| ident_prefix + decimal(i as nat)), ", "@)
}

/// One side of a split outcome: the tuple destructured, each named header pushed JSON-encoded (an
/// optional one holding `null` pushed nowhere), and the envelope answered with the body in the
/// tuple's place; with no header named, the outcome answered as it is. `end` closes the last line.
pub open spec fn split_side_text(
    margin: Seq<char>,
    names: Seq<String>,
    types: Seq<FieldDef>,
    ident_prefix: Seq<char>,
    tuple: Seq<char>,
    before: Seq<char>,
    after: Seq<char>,
    body_width: nat,
    end: Seq<char>,
) -> Seq<char> {
    if names.len() == 0 {
        margin + "return { answered: outcome, headers: [] };"@ + end
    } else {
        let count = if names.len() <= types.len() {
            names.len()
        } else {
            types.len()
        };
        let answered = if body_width == 1 {
            "body0"@
        } else {
            "[body0, body1]"@
        };
        let bodies = if body_width == 1 {
            "body0"@
        } else {
            "body0, body1"@
        };
        margin + "const ["@ + bodies + ", "@ + idents_text(ident_prefix, names.len()) + "] = "@ + tuple + ";\n"@ + margin
            + "const replied: Array<[string, string]> = [];\n"@ + split_pushes_text(margin, names, types, ident_prefix, count)
            + margin + "return { answered: "@ + before + answered + after + ", headers: replied };"@ + end
    }
}

fn split_side(
    margin: &str,
    names: &Vec<String>,
    whole: &FieldDef,
    ident_prefix: &str,
    tuple: &str,
    before: &str,
    after: &str,
    body_width: usize,
    end: &str,
) -> (text: String)
    requires
        body_width == 1 || body_width == 2,
    ensures
        text@ == split_side_text(
            margin@,
            names@,
            header_types_of(names@.len(), *whole),
            ident_prefix@,
            tuple@,
            before@,
            after@,
            body_width as nat,
            end@,
        ),
{
    let mut text = String::from_str(margin);
    if names.len() == 0 {
        text.append("return { answered: outcome, headers: [] };");
        text.append(end);
        return text;
    }
    let no_elements: Vec<FieldDef> = Vec::new();
    let elements = match &whole.field_type {
        FieldDefType::Tuple(elements) => elements,
        _ => &no_elements,
    };
    assert(elements@ == tuple_elements(*whole));
    let start = if elements.len() >= names.len() {
        elements.len() - names.len()
    } else {
        0
    };
    let ghost types = header_types_of(names@.len(), *whole);
    assert(types =~= elements@.subrange(start as int, elements.len() as int));
    let type_count = elements.len() - start;
    let count = if names.len() <= type_count {
        names.len()
    } else {
        type_count
    };
    let mut idents: Vec<String> = Vec::new();
    let mut k: usize = 0;
    while k < names.len()
        invariant
            0 <= k <= names.len(),
            views(idents@) == Seq::new(k as nat, |i: int| ident_prefix@ + decimal(i as nat)),
        decreases names.len() - k,
    {
        let mut ident = ident_prefix.to_owned();
        ident.append(decimal_text(k as u64).as_str());
        let ghost before_idents = views(idents@);
        let ghost pushed = ident@;
        idents.push(ident);
        assert(views(idents@) =~= before_idents.push(pushed));
        assert(views(idents@) =~= Seq::new((k + 1) as nat, |i: int| ident_prefix@ + decimal(i as nat)));
        k += 1;
    }
    text.append("const [");
    if body_width == 1 {
        text.append("body0");
    } else {
        text.append("body0, body1");
    }
    text.append(", ");
    text.append(join_all(&idents, ", ").as_str());
    text.append("] = ");
    text.append(tuple);
    text.append(";\n");
    text.append(margin);
    text.append("const replied: Array<[string, string]> = [];\n");
    let ghost head = text@;
    let mut j: usize = 0;
    while j < count
        invariant
            0 <= j <= count,
            count <= names.len(),
            start + count <= elements.len(),
            types == elements@.subrange(start as int, elements.len() as int),
            count as nat == (if names@.len() <= types.len() {
                names@.len()
            } else {
                types.len()
            }),
            text@ == head + split_pushes_text(margin@, names@, types, ident_prefix@, j as nat),
        decreases count - j,
    {
        let mut ident = ident_prefix.to_owned();
        ident.append(decimal_text(j as u64).as_str());
        let mut push = String::from_str("replied.push([\"");
        push.append(names[j].as_str());
        push.append("\", JSON.stringify(");
        push.append(ident.as_str());
        push.append(")]);");
        assert(types[j as int] == elements@[(start + j) as int]);
        text.append(margin);
        if elements[start + j].optional {
            text.append("if (");
            text.append(ident.as_str());
            text.append(" != null) ");
        }
        text.append(push.as_str());
        text.append("\n");
        j += 1;
    }
    text.append(margin);
    text.append("return { answered: ");
    text.append(before);
    if body_width == 1 {
        text.append("body0");
    } else {
        text.append("[body0, body1]");
    }
    text.append(after);
    text.append(", headers: replied };");
    text.append(end);
    text
}

/// How an arm calls the implementation and answers: nothing after a one-way call; the outcome
/// split into body and headers where a reply declares response headers; the outcome with no
/// headers otherwise.
pub open spec fn answering_text(operation: OperationDef) -> Seq<char> {
    let call = "impl."@ + operation.ts_name@ + "("@ + call_args_text(operation) + ")"@;
    match operation.outcome {
        OperationOutcome::OneWay => "        await "@ + call + ";\n        return undefined;"@,
        OperationOutcome::Reply { error, success } => if operation.http.header_out@.len() > 0
            || operation.http.error_header_out@.len() > 0 {
            let body_width: nat = if operation.http.body_kind == BodyKind::Bytes {
                2
            } else {
                1
            };
            "        const outcome = await "@ + call + ";\n"@ + "        if (outcome.ok) {\n"@ + split_side_text(
                "          "@,
                operation.http.header_out@,
                header_types_of(operation.http.header_out@.len(), success),
                "headerOut"@,
                "outcome.value"@,
                "{ ok: true, value: "@,
                " }"@,
                body_width,
                "\n"@,
            ) + "        }\n"@ + split_side_text(
                "        "@,
                operation.http.error_header_out@,
                header_types_of(operation.http.error_header_out@.len(), error),
                "errorHeaderOut"@,
                "outcome.error"@,
                "{ ok: false, error: "@,
                " }"@,
                1,
                ""@,
            )
        } else {
            "        return { answered: await "@ + call + ", headers: [] };"@
        },
    }
}

/// One arm of the dispatcher's `switch`: the payload check, the header and part reads, then the
/// call.
pub open spec fn arm_text(prefix: Seq<char>, operation: OperationDef, recorded: Recorded) -> Seq<char> {
    let wire = operation.wire_name@;
    "      case \""@ + wire + "\": {\n"@ + payload_check_text(prefix, operation, recorded) + header_reads_text(
        prefix,
        wire,
        operation.http.header_in@,
    ) + part_reads_text(prefix, wire, operation.http.multipart_parts@) + answering_text(operation) + "\n      }"@
}

fn arm(prefix: &str, operation: &OperationDef, recorded: &Recorded) -> (text: String)
    ensures
        text@ == arm_text(prefix@, *operation, *recorded),
{
    let (reads, args) = binding_reads(prefix, operation);
    let mut call = String::from_str("impl.");
    call.append(operation.ts_name.as_str());
    call.append("(");
    call.append(args.as_str());
    call.append(")");
    let answering = match &operation.outcome {
        OperationOutcome::OneWay => {
            let mut text = String::from_str("        await ");
            text.append(call.as_str());
            text.append(";\n        return undefined;");
            text
        },
        OperationOutcome::Reply { error, success } => if operation.http.header_out.len() > 0
            || operation.http.error_header_out.len() > 0 {
            let body_width: usize = if operation.http.body_kind == BodyKind::Bytes {
                2
            } else {
                1
            };
            let mut text = String::from_str("        const outcome = await ");
            text.append(call.as_str());
            text.append(";\n");
            text.append("        if (outcome.ok) {\n");
            text.append(
                split_side(
                    "          ",
                    &operation.http.header_out,
                    success,
                    "headerOut",
                    "outcome.value",
                    "{ ok: true, value: ",
                    " }",
                    body_width,
                    "\n",
                ).as_str(),
            );
            text.append("        }\n");
            text.append(
                split_side(
                    "        ",
                    &operation.http.error_header_out,
                    error,
                    "errorHeaderOut",
                    "outcome.error",
                    "{ ok: false, error: ",
                    " }",
                    1,
                    "",
                ).as_str(),
            );
            text
        } else {
            let mut text = String::from_str("        return { answered: await ");
            text.append(call.as_str());
            text.append(", headers: [] };");
            text
        },
    };
    let mut text = String::from_str("      case \"");
    text.append(operation.wire_name.as_str());
    text.append("\": {\n");
    text.append(payload_check(prefix, operation, recorded).as_str());
    text.append(reads.as_str());
    text.append(answering.as_str());
    text.append("\n      }");
    text
}

/// Every arm of the dispatcher, one per operation in declaration order.
pub open spec fn arms_text(service: ServiceDef) -> Seq<Seq<char>> {
    service.operations@.map_values(|operation: OperationDef| arm_text(lower_first(service.ident@), operation, service.recorded))
}

/// The factory: an implementation in, the function a transport drives it with out; an unknown
/// operation name answers a framed fault.
pub open spec fn dispatcher_text(service: ServiceDef) -> Seq<char> {
    let named = service.ident@;
    let prefix = lower_first(named);
    "/**\n * Turns a `"@ + named
        + "` implementation into the function a transport drives it with.\n *\n * The operation is read from the argument the transport passed beside the payload, never out\n * of the payload itself, and each `header_in` value from the headers beside it, JSON-encoded as\n * a `ws_rpc` frame and an AMQP message both carry them. What comes back is what goes on the\n * wire: the envelope and its headers, or nothing at all where the operation expects no reply.\n */\nexport function create"@
        + named + "Dispatcher<Ctx>(\n  impl: "@ + named
        + "Impl<Ctx>,\n): (\n  ctx: Ctx,\n  operation: string,\n  payload: unknown,\n  headers?: ReadonlyArray<readonly [string, string]>,\n  parts?: ReadonlyArray<readonly [string, unknown]>,\n) => Promise<"@
        + named + "Dispatched | undefined> {\n  return async (ctx, operation, payload, headers = [], parts = []) => {\n    switch (operation) {\n"@
        + join(arms_text(service), "\n"@) + "\n      default:\n        return "@ + prefix + "Framed("@ + prefix
        + "UnknownOperation(operation));\n    }\n  };\n}"@
}

pub fn dispatcher(service: &ServiceDef) -> (text: String)
    ensures
        text@ == dispatcher_text(*service),
{
    let named = service.ident.as_str();
    let prefix = camel_case_of_variant(named);
    let ghost all = arms_text(*service);
    let mut arms: Vec<String> = Vec::new();
    let mut i: usize = 0;
    while i < service.operations.len()
        invariant
            0 <= i <= service.operations.len(),
            prefix@ == lower_first(service.ident@),
            all == arms_text(*service),
            views(arms@) == all.take(i as int),
        decreases service.operations.len() - i,
    {
        let one = arm(prefix.as_str(), &service.operations[i], &service.recorded);
        let ghost before = views(arms@);
        arms.push(one);
        assert(views(arms@) =~= before.push(one@));
        assert(all.take(i + 1) =~= all.take(i as int).push(all[i as int]));
        i += 1;
    }
    assert(all.take(service.operations.len() as int) =~= all);
    let mut text = String::from_str("/**\n * Turns a `");
    text.append(named);
    text.append(
        "` implementation into the function a transport drives it with.\n *\n * The operation is read from the argument the transport passed beside the payload, never out\n * of the payload itself, and each `header_in` value from the headers beside it, JSON-encoded as\n * a `ws_rpc` frame and an AMQP message both carry them. What comes back is what goes on the\n * wire: the envelope and its headers, or nothing at all where the operation expects no reply.\n */\nexport function create",
    );
    text.append(named);
    text.append("Dispatcher<Ctx>(\n  impl: ");
    text.append(named);
    text.append(
        "Impl<Ctx>,\n): (\n  ctx: Ctx,\n  operation: string,\n  payload: unknown,\n  headers?: ReadonlyArray<readonly [string, string]>,\n  parts?: ReadonlyArray<readonly [string, unknown]>,\n) => Promise<",
    );
    text.append(named);
    text.append("Dispatched | undefined> {\n  return async (ctx, operation, payload, headers = [], parts = []) => {\n    switch (operation) {\n");
    text.append(join_all(&arms, "\n").as_str());
    text.append("\n      default:\n        return ");
    text.append(prefix.as_str());
    text.append("Framed(");
    text.append(prefix.as_str());
    text.append("UnknownOperation(operation));\n    }\n  };\n}");
    text
}

} // verus!
