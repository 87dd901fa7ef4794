//! The `<Operation>Result` type: the two arms an operation declared, joined into one return type.
//!
//! The envelope is all this adds. Whatever the operation named as its success type and as its
//! error type crosses unchanged — no field is added to either, none removed, none renamed.
//!
//! The failure arm holds the declared error *or* a fault, rather than the union growing a third
//! member: two members sharing `ok: false` would stop `ok` being a discriminant at all. Two arms,
//! with the fault behind the literal `isServiceFault: true`, leave the compiler something to
//! narrow on at both levels.
//!
//! A one-way operation gets no result type. It declared no reply and therefore no error, and a
//! type joining arms it does not have would be a type nothing can be assigned from.
//!
//! Both names carry the service: `UsageServiceGetBalanceResult`, and the fault it can hold is
//! `UsageServiceFault`, since a bundle is one flat file.
//!
//! A `body = "stream"` operation's own success has no published type of its own, so the fixed
//! streamed record stands in for it.
use crate::field_type::{ts_list, ts_typename, typescript_typename, FieldDef, FieldDefType, Recorded};
use crate::rename_rule::{pascal_case, pascal_case_of_field};
use crate::service_def::{one_way, BodyKind, HttpShape, OperationDef, OperationOutcome, ServiceDef};
use crate::text::{join, join_all, views};
use vstd::prelude::*;

verus! {

/// The TypeScript record a streamed operation's own success answers with: the range it answered
/// (`undefined` at the operation's own status), and the body as the platform's own stream.
pub const STREAMED_ANSWER_TS_TYPE: &'static str =
    "{ contentRange: string | undefined; body: ReadableStream<Uint8Array> }";

/// Optional text, as its characters.
pub open spec fn opt_view(text: Option<String>) -> Option<Seq<char>> {
    match text {
        Some(t) => Some(t@),
        None => None,
    }
}

/// What one operation's result type is called: `get_balance` on `UsageService` answers a
/// `UsageServiceGetBalanceResult`; a one-way operation answers nothing.
pub open spec fn result_name_text(service: Seq<char>, operation: OperationDef) -> Option<Seq<char>> {
    if one_way(operation) {
        None
    } else {
        Some(service + pascal_case(operation.ident@) + "Result"@)
    }
}

pub fn result_name(service: &str, operation: &OperationDef) -> (name: Option<String>)
    ensures
        opt_view(name) == result_name_text(service@, *operation),
{
    match operation.outcome {
        OperationOutcome::OneWay => None,
        OperationOutcome::Reply { .. } => {
            let mut name = service.to_owned();
            name.append(pascal_case_of_field(operation.ident.as_str()).as_str());
            name.append("Result");
            Some(name)
        },
    }
}

/// The elements of a tuple type; nothing for any other type.
pub open spec fn tuple_elements(ty: FieldDef) -> Seq<FieldDef> {
    match ty.field_type {
        FieldDefType::Tuple(elements) => elements@,
        _ => Seq::empty(),
    }
}

/// The streamed record, wrapped in a tuple with one more element per declared `header_out`
/// entry, each typed as the success tuple's own element in that position.
pub open spec fn stream_success_text(shape: HttpShape, success: FieldDef, recorded: Recorded) -> Seq<
    char,
> {
    if shape.header_out@.len() == 0 {
        STREAMED_ANSWER_TS_TYPE@
    } else {
        let elements = tuple_elements(success);
        let rest = if elements.len() == 0 {
            Seq::empty()
        } else {
            elements.drop_first()
        };
        "["@ + join(seq![STREAMED_ANSWER_TS_TYPE@] + ts_list(rest, recorded), ", "@) + "]"@
    }
}

pub fn stream_success_ts_type(shape: &HttpShape, success: &FieldDef, recorded: &Recorded) -> (ts:
    String)
    ensures
        ts@ == stream_success_text(*shape, *success, *recorded),
{
    if shape.header_out.len() == 0 {
        return String::from_str(STREAMED_ANSWER_TS_TYPE);
    }
    let mut parts: Vec<String> = Vec::new();
    parts.push(String::from_str(STREAMED_ANSWER_TS_TYPE));
    if let FieldDefType::Tuple(elements) = &success.field_type {
        let ghost rest = if elements@.len() == 0 {
            Seq::<FieldDef>::empty()
        } else {
            elements@.drop_first()
        };
        let mut i: usize = 1;
        while i < elements.len()
            invariant
                1 <= i <= elements.len() || elements.len() == 0,
                rest == (if elements@.len() == 0 {
                    Seq::<FieldDef>::empty()
                } else {
                    elements@.drop_first()
                }),
                elements.len() > 0 ==> views(parts@) == seq![STREAMED_ANSWER_TS_TYPE@] + ts_list(
                    rest.take(i - 1),
                    *recorded,
                ),
                elements.len() == 0 ==> views(parts@) == seq![STREAMED_ANSWER_TS_TYPE@],
            decreases elements.len() - i,
        {
            let one = typescript_typename(&elements[i], recorded);
            let ghost before = views(parts@);
            parts.push(one);
            assert(views(parts@) =~= before.push(one@));
            assert(rest.take(i as int).drop_last() =~= rest.take(i - 1));
            assert(rest.take(i as int).last() == elements@[i as int]);
            assert(ts_list(rest.take(i as int), *recorded) == ts_list(rest.take(i - 1), *recorded).push(
                one@,
            ));
            assert(views(parts@) =~= seq![STREAMED_ANSWER_TS_TYPE@] + ts_list(
                rest.take(i as int),
                *recorded,
            ));
            i += 1;
        }
        if elements.len() > 0 {
            assert(rest.take(elements.len() - 1) =~= rest);
        } else {
            assert(ts_list(rest, *recorded) =~= Seq::<Seq<char>>::empty());
            assert(views(parts@) =~= seq![STREAMED_ANSWER_TS_TYPE@] + ts_list(rest, *recorded));
        }
    } else {
        assert(ts_list(Seq::<FieldDef>::empty(), *recorded) =~= Seq::<Seq<char>>::empty());
        assert(views(parts@) =~= seq![STREAMED_ANSWER_TS_TYPE@] + ts_list(
            Seq::<FieldDef>::empty(),
            *recorded,
        ));
    }
    let mut ts = String::from_str("[");
    ts.append(join_all(&parts, ", ").as_str());
    ts.append("]");
    ts
}

/// The result type's declaration, for an operation that answers.
pub open spec fn result_type_text(service: Seq<char>, operation: OperationDef, recorded: Recorded) -> Option<
    Seq<char>,
> {
    match operation.outcome {
        OperationOutcome::OneWay => None,
        OperationOutcome::Reply { error, success } => {
            let published = service + pascal_case(operation.ident@) + "Result"@;
            let value = if operation.http.body_kind == BodyKind::Stream {
                stream_success_text(operation.http, success, recorded)
            } else {
                ts_typename(success, recorded)
            };
            let failure = ts_typename(error, recorded);
            Some(
                "/**\n * What `"@ + operation.ts_name@ + "` on `"@ + service
                    + "` answers with: the value it declared, the error it declared,\n * or a fault it never declared.\n */\nexport type "@
                    + published + " =\n  | { ok: true; value: "@ + value
                    + " }\n  | { ok: false; error: "@ + failure
                    + " | { isServiceFault: true; fault: "@ + service + "Fault } };"@,
            )
        },
    }
}

fn result_type(service: &str, operation: &OperationDef, recorded: &Recorded) -> (ts: Option<String>)
    ensures
        opt_view(ts) == result_type_text(service@, *operation, *recorded),
{
    match &operation.outcome {
        OperationOutcome::OneWay => None,
        OperationOutcome::Reply { error, success } => {
            let published = result_name(service, operation);
            let published = match published {
                Some(p) => p,
                None => {
                    return None;
                },
            };
            let value = if operation.http.body_kind == BodyKind::Stream {
                stream_success_ts_type(&operation.http, success, recorded)
            } else {
                typescript_typename(success, recorded)
            };
            let failure = typescript_typename(error, recorded);
            let mut ts = String::from_str("/**\n * What `");
            ts.append(operation.ts_name.as_str());
            ts.append("` on `");
            ts.append(service);
            ts.append(
                "` answers with: the value it declared, the error it declared,\n * or a fault it never declared.\n */\nexport type ",
            );
            ts.append(published.as_str());
            ts.append(" =\n  | { ok: true; value: ");
            ts.append(value.as_str());
            ts.append(" }\n  | { ok: false; error: ");
            ts.append(failure.as_str());
            ts.append(" | { isServiceFault: true; fault: ");
            ts.append(service);
            ts.append("Fault } };");
            Some(ts)
        },
    }
}

/// One result type per operation that answers, in declaration order.
pub open spec fn results_text(service: Seq<char>, operations: Seq<OperationDef>, recorded: Recorded) -> Seq<
    Seq<char>,
>
    decreases operations.len(),
{
    if operations.len() == 0 {
        Seq::empty()
    } else {
        let before = results_text(service, operations.drop_last(), recorded);
        match result_type_text(service, operations.last(), recorded) {
            Some(ts) => before.push(ts),
            None => before,
        }
    }
}

pub fn emit(service: &ServiceDef) -> (published: Vec<String>)
    ensures
        views(published@) == results_text(service.ident@, service.operations@, service.recorded),
{
    let mut published: Vec<String> = Vec::new();
    let mut i: usize = 0;
    while i < service.operations.len()
        invariant
            0 <= i <= service.operations.len(),
            views(published@) == results_text(
                service.ident@,
                service.operations@.take(i as int),
                service.recorded,
            ),
        decreases service.operations.len() - i,
    {
        assert(service.operations@.take(i + 1).drop_last() =~= service.operations@.take(i as int));
        match result_type(service.ident.as_str(), &service.operations[i], &service.recorded) {
            Some(ts) => {
                published.push(ts);
                assert(views(published@) =~= results_text(
                    service.ident@,
                    service.operations@.take(i as int),
                    service.recorded,
                ).push(published@.last()@));
            },
            None => {},
        }
        i += 1;
    }
    assert(service.operations@.take(service.operations.len() as int) =~= service.operations@);
    published
}

} // verus!
