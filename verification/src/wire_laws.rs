//! What the generated code does with the values that cross the wire, stated without the
//! emitters' own templates: which type a Rust scalar is written as and read back as, which
//! branch a reply's `ok` selects, which envelope a declared error is answered in, and that a
//! message is checked before anything is sent or called.
use crate::features::dart::{dart_decode_at_text, dart_scalar, is_integer, DartNames};
use crate::features::kotlin::{kt_scalar, KotlinNames, Tuples};
use crate::features::service_schema::client::method_text as ts_client_method_text;
use crate::features::service_schema::http_client::request::validation_text as http_validation_text;
use crate::features::service_schema::kotlin_ws_client::{reply_decode_text, success_decode_text};
use crate::features::service_schema::message::schema_text;
use crate::features::service_schema::result::result_name_text;
use crate::features::service_schema::service::dispatch::{answering_text, header_types_of, payload_check_text, split_side_text};
use crate::field_type::{ts_scalar, FieldDef, FieldDefType, Recorded};
use crate::rename_rule::lower_first;
use crate::service_def::{one_way, BodyKind, HttpShape, OperationDef, OperationOutcome};
use vstd::prelude::*;

verus! {

/// Whether `text` ends with `suffix`.
pub open spec fn ends_in(text: Seq<char>, suffix: Seq<char>) -> bool {
    suffix.len() <= text.len() && text.subrange(text.len() - suffix.len(), text.len() as int) == suffix
}

/// Whether `part` occurs in `text`.
pub open spec fn holds(text: Seq<char>, part: Seq<char>) -> bool {
    exists|before: Seq<char>, after: Seq<char>| text == before + part + after
}

/// Each Rust scalar is written in Kotlin as the type of the same signedness and width: `u8`,
/// `u16` and `u32` as `UByte`, `UShort` and `UInt`; `i8`, `i16`, `i32` and `i64` as `Byte`,
/// `Short`, `Int` and `Long`; `f32` and `f64` as `Float` and `Double`; `bool` as `Boolean`; a
/// string or a `char` as `String`. Rendering a scalar queues no tuple wrapper.
pub proof fn lemma_kotlin_scalars_keep_signedness_and_width(field: FieldDef, names: KotlinNames, st: Tuples)
    ensures
        field.field_type is U8 ==> kt_scalar(field, names, st) == ("UByte"@, st),
        field.field_type is U16 ==> kt_scalar(field, names, st) == ("UShort"@, st),
        field.field_type is U32 ==> kt_scalar(field, names, st) == ("UInt"@, st),
        field.field_type is I8 ==> kt_scalar(field, names, st) == ("Byte"@, st),
        field.field_type is I16 ==> kt_scalar(field, names, st) == ("Short"@, st),
        field.field_type is I32 ==> kt_scalar(field, names, st) == ("Int"@, st),
        field.field_type is I64 ==> kt_scalar(field, names, st) == ("Long"@, st),
        field.field_type is F32 ==> kt_scalar(field, names, st) == ("Float"@, st),
        field.field_type is F64 ==> kt_scalar(field, names, st) == ("Double"@, st),
        field.field_type is Boolean ==> kt_scalar(field, names, st) == ("Boolean"@, st),
        field.field_type is String ==> kt_scalar(field, names, st) == ("String"@, st),
        field.field_type is Char ==> kt_scalar(field, names, st) == ("String"@, st),
{
}

/// Each Rust scalar is written in TypeScript as the JSON type it travels as: every integer and
/// float as `number`, `bool` as `boolean`, a string or a `char` as `string`.
pub proof fn lemma_typescript_scalars_are_their_json_types(field: FieldDef, recorded: Recorded)
    ensures
        (is_integer(field.field_type) || field.field_type is F32 || field.field_type is F64) ==> ts_scalar(field, recorded)
            == "number"@,
        field.field_type is Boolean ==> ts_scalar(field, recorded) == "boolean"@,
        (field.field_type is String || field.field_type is Char) ==> ts_scalar(field, recorded) == "string"@,
{
}

/// A Dart field of a primitive Rust type is declared as the type its decoder produces: a float
/// as `double`, read through `(… as num).toDouble()`; any other primitive cast straight to its
/// declared type, an integer as `int`, a `bool` as `bool`, a string or a `char` as `String`.
pub proof fn lemma_dart_primitive_declared_as_decoded(field: FieldDef, expr: Seq<char>, names: DartNames)
    ensures
        (field.field_type is F32 || field.field_type is F64) ==> dart_scalar(field, names) == "double"@
            && dart_decode_at_text(field, 0, expr, names) == "("@ + expr + " as num).toDouble()"@,
        is_integer(field.field_type) ==> dart_scalar(field, names) == "int"@ && dart_decode_at_text(field, 0, expr, names)
            == expr + " as "@ + dart_scalar(field, names),
        field.field_type is Boolean ==> dart_scalar(field, names) == "bool"@ && dart_decode_at_text(field, 0, expr, names)
            == expr + " as "@ + dart_scalar(field, names),
        (field.field_type is String || field.field_type is Char) ==> dart_scalar(field, names) == "String"@
            && dart_decode_at_text(field, 0, expr, names) == expr + " as "@ + dart_scalar(field, names),
{
    reveal_strlit(" as ");
    reveal_strlit(" as int");
    reveal_strlit(" as bool");
    reveal_strlit(" as String");
    reveal_strlit("int");
    reveal_strlit("bool");
    reveal_strlit("String");
    if is_integer(field.field_type) {
        assert(" as int"@ =~= " as "@ + "int"@);
    }
    if field.field_type is Boolean {
        assert(" as bool"@ =~= " as "@ + "bool"@);
    }
    if field.field_type is String || field.field_type is Char {
        assert(" as String"@ =~= " as "@ + "String"@);
    }
}

/// The read of `ok` off a `ws_rpc` reply frame.
pub open spec fn ok_read_text() -> Seq<char> {
    "    val ok = (reply[\"ok\"] as? JsonPrimitive)?.booleanOrNull ?: false\n"@
}

/// A Kotlin `ws_rpc` client reads a reply's success exactly when the frame's `ok` is true: the
/// reading opens with the `ok` read, then a branch taken on `ok` holding the success decode and
/// nothing else; the error and fault readings follow, outside it.
pub proof fn lemma_kotlin_ws_success_read_exactly_on_ok(
    named: Seq<char>,
    fn_prefix: Seq<char>,
    wire: Seq<char>,
    result: Seq<char>,
    shape: HttpShape,
    error: FieldDef,
    success: FieldDef,
    recorded: Recorded,
    names: KotlinNames,
    st: Tuples,
)
    ensures
        exists|rest: Seq<char>|
            reply_decode_text(named, fn_prefix, wire, result, shape, error, success, recorded, names, st).0 == ok_read_text()
                + "    if (ok) {\n"@ + success_decode_text(fn_prefix, wire, result, shape, success, recorded, names, st).0
                + "    }\n"@ + rest,
{
    reveal_strlit("    val ok = (reply[\"ok\"] as? JsonPrimitive)?.booleanOrNull ?: false\n");
    reveal_strlit("    if (ok) {\n");
    reveal_strlit("    val ok = (reply[\"ok\"] as? JsonPrimitive)?.booleanOrNull ?: false\n    if (ok) {\n");
    reveal_strlit("    }\n");
    let text = reply_decode_text(named, fn_prefix, wire, result, shape, error, success, recorded, names, st).0;
    let block = success_decode_text(fn_prefix, wire, result, shape, success, recorded, names, st).0;
    reveal(reply_decode_text);
    let long = "    }\n    val error = reply[\"error\"]\n    val isServiceFault = (error as? JsonObject)?.get(\"isServiceFault\")\n      ?.let { (it as? JsonPrimitive)?.booleanOrNull } ?: false\n    if (isServiceFault) {\n      return try {\n        "@;
    reveal_strlit("    }\n    val error = reply[\"error\"]\n    val isServiceFault = (error as? JsonObject)?.get(\"isServiceFault\")\n      ?.let { (it as? JsonPrimitive)?.booleanOrNull } ?: false\n    if (isServiceFault) {\n      return try {\n        ");
    let s1 = success_decode_text(fn_prefix, wire, result, shape, success, recorded, names, st).1;
    let error_block = crate::features::service_schema::kotlin_ws_client::error_decode_text(
        fn_prefix,
        wire,
        result,
        shape,
        error,
        names,
        s1,
    ).0;
    let tail = result + ".Fault(\n          Json.decodeFromJsonElement(serializer<"@
        + crate::features::service_schema::fault::fields_name(named)
        + ">(), error.getValue(\"fault\")),\n        )\n      } catch (rejected: Throwable) {\n        "@ + result + ".Fault("@
        + fn_prefix + "WsFailedValidation(\""@ + wire + "\", rejected.toString()))\n      }\n    }\n"@ + error_block;
    assert(text =~= "    val ok = (reply[\"ok\"] as? JsonPrimitive)?.booleanOrNull ?: false\n    if (ok) {\n"@ + block + long + tail);
    let rest = long.subrange(6, long.len() as int) + tail;
    assert(long =~= "    }\n"@ + long.subrange(6, long.len() as int));
    assert(text =~= ok_read_text() + "    if (ok) {\n"@ + block + "    }\n"@ + rest);
}

/// The line that answers a declared error whose response headers were split off it.
pub open spec fn declared_error_answer() -> Seq<char> {
    "        return { answered: { ok: false, error: body0 }, headers: replied };"@
}

/// The line that answers a success whose response headers were split off its body.
pub open spec fn success_answer() -> Seq<char> {
    "          return { answered: { ok: true, value: body0 }, headers: replied };\n"@
}

/// The line closing one side of a split outcome: the envelope with the body in the tuple's place.
pub open spec fn split_closing(margin: Seq<char>, before: Seq<char>, after: Seq<char>, end: Seq<char>) -> Seq<char> {
    margin + "return { answered: "@ + before + "body0"@ + after + ", headers: replied };"@ + end
}

proof fn lemma_split_side_closes(
    margin: Seq<char>,
    names: Seq<String>,
    types: Seq<FieldDef>,
    ident_prefix: Seq<char>,
    tuple: Seq<char>,
    before: Seq<char>,
    after: Seq<char>,
    end: Seq<char>,
)
    requires
        names.len() > 0,
    ensures
        exists|p: Seq<char>|
            split_side_text(margin, names, types, ident_prefix, tuple, before, after, 1, end) == p + split_closing(
                margin,
                before,
                after,
                end,
            ),
{
    let text = split_side_text(margin, names, types, ident_prefix, tuple, before, after, 1, end);
    let closing = split_closing(margin, before, after, end);
    let p = text.subrange(0, text.len() - closing.len());
    assert(text =~= p + closing);
}

/// The TypeScript dispatcher answers a declared error in a failure envelope: where the error
/// declares response headers, its body goes under `error` with `ok: false`; where only the success
/// declares them, the outcome itself (its own `ok: false` arm) is answered. A success with
/// headers (outside a bytes body) is answered with `ok: true` and its body under `value`.
#[verifier::spinoff_prover]
pub proof fn lemma_dispatcher_keeps_the_declared_error_a_failure(operation: OperationDef)
    requires
        !one_way(operation),
        operation.http.header_out@.len() > 0 || operation.http.error_header_out@.len() > 0,
    ensures
        operation.http.error_header_out@.len() > 0 ==> ends_in(answering_text(operation), declared_error_answer()),
        operation.http.error_header_out@.len() == 0 ==> ends_in(
            answering_text(operation),
            "        return { answered: outcome, headers: [] };"@,
        ),
        operation.http.header_out@.len() > 0 && operation.http.body_kind != BodyKind::Bytes ==> holds(
            answering_text(operation),
            success_answer(),
        ),
{
    reveal_strlit("        ");
    reveal_strlit("          ");
    reveal_strlit("return { answered: outcome, headers: [] };");
    reveal_strlit("        return { answered: outcome, headers: [] };");
    reveal_strlit("return { answered: ");
    reveal_strlit("{ ok: false, error: ");
    reveal_strlit("{ ok: true, value: ");
    reveal_strlit("body0");
    reveal_strlit(" }");
    reveal_strlit(", headers: replied };");
    reveal_strlit("");
    reveal_strlit("\n");
    reveal_strlit("        return { answered: { ok: false, error: body0 }, headers: replied };");
    reveal_strlit("          return { answered: { ok: true, value: body0 }, headers: replied };\n");
    match operation.outcome {
        OperationOutcome::Reply { error, success } => {
            let text = answering_text(operation);
            let call = "impl."@ + operation.ts_name@ + "("@ + crate::features::service_schema::service::dispatch::call_args_text(
                operation,
            ) + ")"@;
            let width: nat = if operation.http.body_kind == BodyKind::Bytes {
                2
            } else {
                1
            };
            let success_side = split_side_text(
                "          "@,
                operation.http.header_out@,
                header_types_of(operation.http.header_out@.len(), success),
                "headerOut"@,
                "outcome.value"@,
                "{ ok: true, value: "@,
                " }"@,
                width,
                "\n"@,
            );
            let error_side = split_side_text(
                "        "@,
                operation.http.error_header_out@,
                header_types_of(operation.http.error_header_out@.len(), error),
                "errorHeaderOut"@,
                "outcome.error"@,
                "{ ok: false, error: "@,
                " }"@,
                1,
                ""@,
            );
            let opening = "        const outcome = await "@ + call + ";\n"@ + "        if (outcome.ok) {\n"@;
            let middle = "        }\n"@;
            assert(text == opening + success_side + middle + error_side);
            let tail = if operation.http.error_header_out@.len() > 0 {
                lemma_split_side_closes(
                    "        "@,
                    operation.http.error_header_out@,
                    header_types_of(operation.http.error_header_out@.len(), error),
                    "errorHeaderOut"@,
                    "outcome.error"@,
                    "{ ok: false, error: "@,
                    " }"@,
                    ""@,
                );
                let closing = split_closing("        "@, "{ ok: false, error: "@, " }"@, ""@);
                assert(closing =~= declared_error_answer());
                let p = choose|p: Seq<char>| error_side == p + closing;
                assert(error_side.subrange(error_side.len() - closing.len(), error_side.len() as int) =~= closing);
                closing
            } else {
                assert(error_side =~= "        return { answered: outcome, headers: [] };"@);
                error_side
            };
            assert(error_side.subrange(error_side.len() - tail.len(), error_side.len() as int) =~= tail);
            assert(text.subrange(text.len() - tail.len(), text.len() as int) =~= error_side.subrange(
                error_side.len() - tail.len(),
                error_side.len() as int,
            ));
            if operation.http.header_out@.len() > 0 && operation.http.body_kind != BodyKind::Bytes {
                lemma_split_side_closes(
                    "          "@,
                    operation.http.header_out@,
                    header_types_of(operation.http.header_out@.len(), success),
                    "headerOut"@,
                    "outcome.value"@,
                    "{ ok: true, value: "@,
                    " }"@,
                    "\n"@,
                );
                let closing = split_closing("          "@, "{ ok: true, value: "@, " }"@, "\n"@);
                assert(closing =~= success_answer());
                let p = choose|p: Seq<char>| success_side == p + closing;
                assert(text =~= (opening + p) + success_answer() + (middle + error_side));
            }
        },
        _ => {},
    }
}

/// The opening every `ts_client` method has: the parse of the message against its schema, and
/// the refusal taken exactly when that parse fails.
pub open spec fn ts_client_guard_text(operation: OperationDef, recorded: Recorded) -> Seq<char> {
    "    async "@ + operation.ts_name@ + "(req) {\n      const validated = "@ + schema_text(operation, recorded)
        + ".safeParse(req);\n      if (!validated.success) {\n"@
}

/// A `ts_client` method refuses a message exactly when its schema's parse fails, and otherwise
/// reaches the transport with the parsed data: the refusal sits inside the branch taken on a
/// failed parse, and the one call to the transport follows it, notifying for a one-way operation
/// and requesting the operation's result otherwise.
pub proof fn lemma_ts_client_refuses_exactly_an_unparsed_message(service: Seq<char>, operation: OperationDef, recorded: Recorded)
    ensures
        exists|refusal: Seq<char>, sending: Seq<char>|
            ts_client_method_text(service, operation, recorded) == ts_client_guard_text(operation, recorded) + refusal
                + "\n      }\n"@ + sending + "\n    },"@ && (one_way(operation) ==> sending == "      await transport.notify(\""@
                + operation.wire_name@ + "\", validated.data);"@) && (!one_way(operation) ==> exists|ty: Seq<char>, tail: Seq<char>|
                sending == "      "@ + ty + "transport.request<"@ + result_name_text(service, operation)->0 + ">(\""@
                    + operation.wire_name@ + "\", validated.data);"@ + tail),
{
    reveal_strlit("    async ");
    reveal_strlit("(req) {\n");
    reveal_strlit("(req) {\n      const validated = ");
    reveal_strlit("      const validated = ");
    reveal_strlit(".safeParse(req);\n      if (!validated.success) {\n");
    reveal_strlit("\n      }\n");
    reveal_strlit("\n    },");
    reveal_strlit("      ");
    reveal_strlit("return ");
    reveal_strlit("const answered = await ");
    reveal_strlit("transport.request<");
    reveal_strlit("      return transport.request<");
    reveal_strlit("      const answered = await transport.request<");
    reveal_strlit("\", validated.data);");
    reveal_strlit("\", validated.data);\n      return answered.ok === true ? { ok: true, value: undefined } : answered;");
    reveal_strlit("\n      return answered.ok === true ? { ok: true, value: undefined } : answered;");
    let text = ts_client_method_text(service, operation, recorded);
    let guard = ts_client_guard_text(operation, recorded);
    let validation = crate::features::service_schema::client::validation_text(service, operation, recorded);
    let opening = "      const validated = "@ + schema_text(operation, recorded) + ".safeParse(req);\n      if (!validated.success) {\n"@;
    let close = "\n      }\n"@;
    let refusal = validation.subrange(opening.len() as int, validation.len() - close.len());
    assert(validation =~= opening + refusal + close);
    let head = "    async "@ + operation.ts_name@ + "(req) {\n"@;
    assert(guard =~= head + opening);
    let end = "\n    },"@;
    let sending = text.subrange((head.len() + validation.len()) as int, text.len() - end.len());
    assert(text =~= head + validation + sending + end);
    assert(text =~= guard + refusal + close + sending + end);
    if !one_way(operation) {
        match operation.outcome {
            OperationOutcome::Reply { error: _, success } => {
                let name = result_name_text(service, operation)->0;
                if crate::field_type::unit_type(success, recorded) {
                    let ty = "const answered = await "@;
                    let tail = "\n      return answered.ok === true ? { ok: true, value: undefined } : answered;"@;
                    assert(sending =~= "      "@ + ty + "transport.request<"@ + name + ">(\""@ + operation.wire_name@
                        + "\", validated.data);"@ + tail);
                } else {
                    let ty = "return "@;
                    assert(sending =~= "      "@ + ty + "transport.request<"@ + name + ">(\""@ + operation.wire_name@
                        + "\", validated.data);"@ + Seq::<char>::empty());
                }
            },
            _ => {},
        }
    }
}

/// A TypeScript `http_rest` method opens with the parse of its message and the refusal taken
/// exactly when that parse fails, ahead of any request being built.
pub proof fn lemma_ts_http_refuses_exactly_an_unparsed_message(prefix: Seq<char>, operation: OperationDef, recorded: Recorded)
    ensures
        exists|refusal: Seq<char>|
            http_validation_text(prefix, operation, recorded) == "      const validated = "@ + schema_text(operation, recorded)
                + ".safeParse(req);\n      if (!validated.success) {\n"@ + refusal + "      }\n"@,
{
    reveal_strlit("      const validated = ");
    reveal_strlit(".safeParse(req);\n      if (!validated.success) {\n");
    reveal_strlit("      }\n");
    let text = http_validation_text(prefix, operation, recorded);
    let head = "      const validated = "@ + schema_text(operation, recorded) + ".safeParse(req);\n      if (!validated.success) {\n"@;
    let refusal = text.subrange(head.len() as int, text.len() - 8);
    assert(text =~= head + refusal + "      }\n"@);
}

/// A TypeScript dispatch arm parses the payload before anything else, and answers a framed fault
/// exactly when that parse fails.
pub proof fn lemma_dispatch_refuses_exactly_an_unparsed_payload(prefix: Seq<char>, operation: OperationDef, recorded: Recorded)
    ensures
        payload_check_text(prefix, operation, recorded) == "        const received = "@ + schema_text(operation, recorded)
            + ".safeParse(payload);\n        if (!received.success) {\n          return "@ + prefix + "Framed("@ + prefix
            + "InboundFault(\""@ + operation.wire_name@ + "\", received.error.issues));\n        }\n"@,
{
}

} // verus!
