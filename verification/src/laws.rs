//! What holds of the library across its functions: what a lookup reads back of a registration,
//! which artifacts a registry publishes, and what every emitted name carries.
use crate::features::dart::dart_lookup;
use crate::features::dart::tagged::{is_external, tagged_arms, DartVariant};
use crate::features::dart::items::{
    dart_item_names, dart_item_text, dart_registered, struct_text, value_wrapper_text, DartItem,
};
use crate::features::dart::tagged::{
    all_unit, generic_params_text, plain_enum_text, tagged_enum_text, untagged_enum_text,
};
use crate::features::dart::{dart_type, ident_typedef_text, DartNames};
use crate::declaration::{kept_slots, wraps_one_value, StructFields};
use crate::text::views;
use crate::features::kotlin::dispatch::{kotlin_item_names, kotlin_item_text, KotlinItem};
use crate::features::kotlin::items::{registered, tuple_struct_parts_text, value_class_text, KotlinValueStruct};
use crate::features::kotlin::{
    angled_text, ident_typealias_text, kotlin_lookup, kt_at, kt_list, kt_scalar, kt_ser, kt_ser_list, kt_tuple, kt_type, next_index, KotlinNames, Tuples,
};
use crate::features::service_schema::http_client::calls::{method_text, methods_text as ts_http_methods_text};
use crate::features::service_schema::http_client::request::{method_params_text, validation_text};
use crate::features::service_schema::kotlin_http_client::calls::methods_text;
use crate::features::service_schema::kotlin_http_client::{result_interface_text, result_interfaces_text};
use crate::features::service_schema::kotlin_ws_client::{client_methods_text, dispatch_arms_text, handler_members_text};
use crate::features::service_schema::result::{result_name_text, result_type_text, results_text, stream_success_text};
use crate::features::service_schema::service::dispatch::{arms_text, payload_check_text};
use crate::features::service_schema::{message_exprs, published_exprs, seam_text};
use crate::features::{described, named_if, switched_on, Features};
use crate::field_type::{ts_typename, FieldDef, FieldDefType, Recorded};
use crate::rename_rule::{lower_first, pascal_case};
use crate::service_def::{one_way, BodyKind, OperationDef, OperationOutcome, ServiceDef};
use vstd::prelude::*;

verus! {

/// A Dart name reads back as the one last registered for its ident, and registering one ident
/// leaves what every other ident reads back unchanged.
pub proof fn lemma_dart_lookup_reads_back_registration(
    before: Seq<(String, String)>,
    after: Seq<(String, String)>,
    rust_ident: Seq<char>,
    export_name: Seq<char>,
    other: Seq<char>,
)
    requires
        after.len() == before.len() + 1,
        after.drop_last() == before,
        after.last().0@ == rust_ident,
        after.last().1@ == export_name,
    ensures
        dart_lookup(after, rust_ident) == Some(export_name),
        other != rust_ident ==> dart_lookup(after, other) == dart_lookup(before, other),
{
}

/// A Kotlin name reads back as the one last registered for its ident, and registering one ident
/// leaves what every other ident reads back unchanged.
pub proof fn lemma_kotlin_lookup_reads_back_registration(
    before: Seq<(String, String)>,
    after: Seq<(String, String)>,
    rust_ident: Seq<char>,
    export_name: Seq<char>,
    other: Seq<char>,
)
    requires
        after.len() == before.len() + 1,
        after.drop_last() == before,
        after.last().0@ == rust_ident,
        after.last().1@ == export_name,
    ensures
        kotlin_lookup(after, rust_ident) == Some(export_name),
        other != rust_ident ==> kotlin_lookup(after, other) == kotlin_lookup(before, other),
{
}

/// An operation's result type is named for the service first and ends in `Result`; a one-way
/// operation has none.
pub proof fn lemma_result_names_carry_the_service(service: Seq<char>, operation: OperationDef)
    ensures
        result_name_text(service, operation) is None <==> one_way(operation),
        result_name_text(service, operation) matches Some(name) ==> name.take(service.len() as int)
            == service && name.skip(name.len() - 6) == "Result"@,
{
    reveal_strlit("Result");
    if let Some(name) = result_name_text(service, operation) {
        let middle = crate::rename_rule::pascal_case(operation.ident@);
        assert(name == service + middle + "Result"@);
        assert(name.take(service.len() as int) =~= service);
        assert(name.skip(name.len() - 6) =~= "Result"@);
    }
}

/// How many of `operations` answer.
pub open spec fn replying_count(operations: Seq<OperationDef>) -> nat
    decreases operations.len(),
{
    if operations.len() == 0 {
        0
    } else if one_way(operations.last()) {
        replying_count(operations.drop_last())
    } else {
        replying_count(operations.drop_last()) + 1
    }
}

/// A service publishes exactly one result type per operation that answers, and none for a
/// one-way operation.
pub proof fn lemma_one_result_per_replying_operation(
    service: Seq<char>,
    operations: Seq<OperationDef>,
    recorded: Recorded,
)
    ensures
        results_text(service, operations, recorded).len() == replying_count(operations),
    decreases operations.len(),
{
    if operations.len() > 0 {
        lemma_one_result_per_replying_operation(service, operations.drop_last(), recorded);
    }
}

/// The operations of `operations` that answer, in declaration order.
pub open spec fn replying(operations: Seq<OperationDef>) -> Seq<OperationDef>
    decreases operations.len(),
{
    if operations.len() == 0 {
        Seq::empty()
    } else if one_way(operations.last()) {
        replying(operations.drop_last())
    } else {
        replying(operations.drop_last()).push(operations.last())
    }
}

/// A result type laid out: its documentation, `export type {name} =`, an `ok: true` arm carrying
/// `value`, and an `ok: false` arm carrying the declared `error` or the service's own fault.
pub open spec fn result_layout(
    doc: Seq<char>,
    name: Seq<char>,
    value: Seq<char>,
    error: Seq<char>,
    service: Seq<char>,
) -> Seq<char> {
    doc + "export type "@ + name + " =\n  | { ok: true; value: "@ + value + " }\n  | { ok: false; error: "@ + error
        + " | { isServiceFault: true; fault: "@ + service + "Fault } };"@
}

/// A service publishes its result types one per answering operation, in declaration order; each
/// is exported under that operation's result name, with one `ok: true` arm and one `ok: false`
/// arm whose fault is the service's own.
pub proof fn lemma_results_follow_the_answering_operations(
    service: Seq<char>,
    operations: Seq<OperationDef>,
    recorded: Recorded,
)
    ensures
        results_text(service, operations, recorded).len() == replying(operations).len(),
        forall|i: int|
            0 <= i < replying(operations).len() ==> (#[trigger] result_name_text(service, replying(operations)[i]))
                is Some && exists|doc: Seq<char>, value: Seq<char>, error: Seq<char>|
                results_text(service, operations, recorded)[i] == #[trigger] result_layout(
                    doc,
                    result_name_text(service, replying(operations)[i])->0,
                    value,
                    error,
                    service,
                ),
    decreases operations.len(),
{
    if operations.len() > 0 {
        let rest = operations.drop_last();
        lemma_results_follow_the_answering_operations(service, rest, recorded);
        let op = operations.last();
        let n = replying(rest).len() as int;
        let all = results_text(service, operations, recorded);
        assert forall|i: int| 0 <= i < replying(operations).len() implies (#[trigger] result_name_text(
            service,
            replying(operations)[i],
        )) is Some && exists|doc: Seq<char>, value: Seq<char>, error: Seq<char>|
            all[i] == #[trigger] result_layout(
                doc,
                result_name_text(service, replying(operations)[i])->0,
                value,
                error,
                service,
            ) by {
            if i < n {
                let earlier = replying(rest)[i];
                assert(replying(operations)[i] == earlier);
                assert(result_name_text(service, earlier) is Some);
                let name = result_name_text(service, earlier)->0;
                let (doc, value, error) = choose|doc: Seq<char>, value: Seq<char>, error: Seq<char>|
                    results_text(service, rest, recorded)[i] == #[trigger] result_layout(doc, name, value, error, service);
                assert(all[i] == results_text(service, rest, recorded)[i]);
                assert(all[i] == result_layout(doc, name, value, error, service));
            } else {
                assert(!one_way(op));
                assert(replying(operations)[i] == op);
                match op.outcome {
                    OperationOutcome::Reply { error, success } => {
                        let name = service + pascal_case(op.ident@) + "Result"@;
                        let value = if op.http.body_kind == BodyKind::Stream {
                            stream_success_text(op.http, success, recorded)
                        } else {
                            ts_typename(success, recorded)
                        };
                        let doc = "/**\n * What `"@ + op.ts_name@ + "` on `"@ + service
                            + "` answers with: the value it declared, the error it declared,\n * or a fault it never declared.\n */\n"@;
                        reveal_strlit("export type ");
                        reveal_strlit(
                            "` answers with: the value it declared, the error it declared,\n * or a fault it never declared.\n */\n",
                        );
                        reveal_strlit(
                            "` answers with: the value it declared, the error it declared,\n * or a fault it never declared.\n */\nexport type ",
                        );
                        let text = result_type_text(service, op, recorded)->0;
                        assert(text =~= result_layout(doc, name, value, ts_typename(error, recorded), service));
                        assert(results_text(service, operations, recorded) == results_text(service, rest, recorded).push(text));
                        assert(all[i] == text);
                        assert(result_name_text(service, replying(operations)[i])->0 == name);
                        assert(all[i] == result_layout(
                            doc,
                            result_name_text(service, replying(operations)[i])->0,
                            value,
                            ts_typename(error, recorded),
                            service,
                        ));
                    },
                    _ => {},
                }
            }
        }
    }
}

/// The client, the `http_rest` client and the service side, which parse a message against its Zod
/// schema, are published exactly in a build that writes Zod.
pub proof fn lemma_seam_only_with_zod(service: ServiceDef, features: Features)
    ensures
        seam_text(service, features).len() > 0 <==> features.zod,
{
    reveal_strlit("pub fn ");
    if features.zod {
        let text = seam_text(service, features);
        assert(text.len() >= "pub fn "@.len());
    }
}

/// Every message the macro declared for a service is registered by its type, and by its schema
/// in a build that writes Zod.
pub proof fn lemma_every_generated_message_is_registered(service: ServiceDef, features: Features, i: int)
    requires
        0 <= i < service.generated_messages@.len(),
    ensures
        published_exprs(service, features).contains(
            service.generated_messages@[i]@ + "::ts_definition()"@,
        ),
        features.zod ==> published_exprs(service, features).contains(
            service.generated_messages@[i]@ + "::zod_schema()"@,
        ),
{
    let messages = service.generated_messages@;
    lemma_message_exprs_register(messages, features.zod, i);
    let exprs = message_exprs(messages, features.zod);
    let all = published_exprs(service, features);
    let definition = messages[i]@ + "::ts_definition()"@;
    let k = choose|k: int| 0 <= k < exprs.len() && exprs[k] == definition;
    assert(all[k] == exprs[k]);
    if features.zod {
        let schema = messages[i]@ + "::zod_schema()"@;
        let j = choose|j: int| 0 <= j < exprs.len() && exprs[j] == schema;
        assert(all[j] == exprs[j]);
    }
}

proof fn lemma_message_exprs_register(messages: Seq<String>, zod: bool, i: int)
    requires
        0 <= i < messages.len(),
    ensures
        message_exprs(messages, zod).contains(messages[i]@ + "::ts_definition()"@),
        zod ==> message_exprs(messages, zod).contains(messages[i]@ + "::zod_schema()"@),
    decreases messages.len(),
{
    let before = message_exprs(messages.drop_last(), zod);
    let message = messages.last()@;
    if i == messages.len() - 1 {
        if zod {
            let all = before.push(message + "::ts_definition()"@).push(message + "::zod_schema()"@);
            assert(all[before.len() as int] == message + "::ts_definition()"@);
            assert(all[before.len() + 1int] == message + "::zod_schema()"@);
        } else {
            let all = before.push(message + "::ts_definition()"@);
            assert(all[before.len() as int] == message + "::ts_definition()"@);
        }
    } else {
        lemma_message_exprs_register(messages.drop_last(), zod, i);
        assert(messages.drop_last()[i] == messages[i]);
        let definition = messages[i]@ + "::ts_definition()"@;
        let k = choose|k: int| 0 <= k < before.len() && before[k] == definition;
        if zod {
            let all = before.push(message + "::ts_definition()"@).push(message + "::zod_schema()"@);
            assert(all[k] == before[k]);
            let schema = messages[i]@ + "::zod_schema()"@;
            let j = choose|j: int| 0 <= j < before.len() && before[j] == schema;
            assert(all[j] == before[j]);
        } else {
            let all = before.push(message + "::ts_definition()"@);
            assert(all[k] == before[k]);
        }
    }
}

/// Adding `x`, which none of `seen` is, to a list drawn from `seen` with no name twice keeps it
/// so, and draws it from `seen` with `x`.
proof fn lemma_add_fresh_name(names: Seq<Seq<char>>, on: bool, x: Seq<char>, seen: Seq<Seq<char>>)
    requires
        names.no_duplicates(),
        forall|i: int| 0 <= i < names.len() ==> seen.contains(#[trigger] names[i]),
        !seen.contains(x),
    ensures
        (names + named_if(on, x)).no_duplicates(),
        forall|i: int|
            0 <= i < (names + named_if(on, x)).len() ==> seen.push(x).contains(#[trigger] (names + named_if(on, x))[i]),
        (names + named_if(on, x)).len() <= names.len() + 1,
{
    let all = names + named_if(on, x);
    assert forall|i: int| 0 <= i < all.len() implies seen.push(x).contains(#[trigger] all[i]) by {
        if i < names.len() {
            let k = choose|k: int| 0 <= k < seen.len() && seen[k] == names[i];
            assert(seen.push(x)[k] == all[i]);
        } else {
            assert(seen.push(x)[seen.len() as int] == all[i]);
        }
    }
    assert forall|i: int, j: int| 0 <= i < all.len() && 0 <= j < all.len() && i != j implies all[i] != all[j] by {
        if i < names.len() && j >= names.len() {
            assert(all[j] == x);
            assert(seen.contains(names[i]));
        } else if j < names.len() && i >= names.len() {
            assert(all[i] == x);
            assert(seen.contains(names[j]));
        }
    }
}

/// A build always reports something of itself, at most one name per switch, no name twice, and
/// `minimal` exactly when none of the reported switches is on.
pub proof fn lemma_a_build_always_describes_itself(features: Features)
    ensures
        described(features).len() >= 1,
        described(features).len() <= 7,
        described(features).no_duplicates(),
        (described(features) == seq!["minimal"@]) <==> !(features.serde || features.zod
            || features.jsonschema || features.object_id || features.typescript || features.chrono
            || features.dart),
        described(features).contains("minimal"@) <==> described(features) == seq!["minimal"@],
{
    reveal_strlit("minimal");
    reveal_strlit("serde");
    reveal_strlit("zod");
    reveal_strlit("jsonschema");
    reveal_strlit("object_id");
    reveal_strlit("typescript");
    reveal_strlit("chrono");
    reveal_strlit("dart");
    let n1 = "serde"@;
    let n2 = "zod"@;
    let n3 = "jsonschema"@;
    let n4 = "object_id"@;
    let n5 = "typescript"@;
    let n6 = "chrono"@;
    let n7 = "dart"@;
    let s0 = Seq::<Seq<char>>::empty();
    let s1 = s0 + named_if(features.serde, n1);
    let s2 = s1 + named_if(features.zod, n2);
    let s3 = s2 + named_if(features.jsonschema, n3);
    let s4 = s3 + named_if(features.object_id, n4);
    let s5 = s4 + named_if(features.typescript, n5);
    let s6 = s5 + named_if(features.chrono, n6);
    let s7 = s6 + named_if(features.dart, n7);
    assert(s7 =~= switched_on(features));
    let e = Seq::<Seq<char>>::empty();
    assert(n1.len() == 5 && n2.len() == 3 && n3.len() == 10 && n4.len() == 9 && n5.len() == 10
        && n6.len() == 6 && n7.len() == 4);
    assert(n1 != n2 && n1 != n3 && n1 != n4 && n1 != n5 && n1 != n6 && n1 != n7);
    assert(n2 != n3 && n2 != n4 && n2 != n5 && n2 != n6 && n2 != n7);
    assert(n3 != n4 && n3 != n5 && n3 != n6 && n3 != n7) by {
        assert(n3[0] != n5[0]);
    }
    assert(n4 != n5 && n4 != n6 && n4 != n7);
    assert(n5 != n6 && n5 != n7);
    assert(n6 != n7);
    lemma_add_fresh_name(s0, features.serde, n1, e);
    assert(!e.push(n1).contains(n2)) by {
        assert(e.push(n1) =~= seq![n1]);
    }
    lemma_add_fresh_name(s1, features.zod, n2, e.push(n1));
    let w2 = e.push(n1).push(n2);
    assert(!w2.contains(n3)) by {
        assert(w2 =~= seq![n1, n2]);
    }
    lemma_add_fresh_name(s2, features.jsonschema, n3, w2);
    let w3 = w2.push(n3);
    assert(!w3.contains(n4)) by {
        assert(w3 =~= seq![n1, n2, n3]);
    }
    lemma_add_fresh_name(s3, features.object_id, n4, w3);
    let w4 = w3.push(n4);
    assert(!w4.contains(n5)) by {
        assert(w4 =~= seq![n1, n2, n3, n4]);
    }
    lemma_add_fresh_name(s4, features.typescript, n5, w4);
    let w5 = w4.push(n5);
    assert(!w5.contains(n6)) by {
        assert(w5 =~= seq![n1, n2, n3, n4, n5]);
    }
    lemma_add_fresh_name(s5, features.chrono, n6, w5);
    let w6 = w5.push(n6);
    assert(!w6.contains(n7)) by {
        assert(w6 =~= seq![n1, n2, n3, n4, n5, n6]);
    }
    lemma_add_fresh_name(s6, features.dart, n7, w6);
    let w7 = w6.push(n7);
    let minimal = "minimal"@;
    assert(!w7.contains(minimal)) by {
        assert(w7 =~= seq![n1, n2, n3, n4, n5, n6, n7]);
        assert(minimal.len() == 7);
    }
    let on = switched_on(features);
    if features.serde || features.zod || features.jsonschema || features.object_id
        || features.typescript || features.chrono || features.dart {
        assert(on.len() >= 1);
        assert(!on.contains(minimal)) by {
            if on.contains(minimal) {
                let k = choose|k: int| 0 <= k < on.len() && on[k] == minimal;
                assert(w7.contains(s7[k]));
            }
        }
        if on == seq![minimal] {
            assert(on[0] == minimal);
        }
    } else {
        assert(on =~= Seq::<Seq<char>>::empty());
        assert(described(features) =~= seq![minimal]);
        assert(described(features)[0] == minimal);
    }
}

/// A tagged enum publishes one subclass per variant and one dispatch arm per variant; only
/// under external tagging does an arm match a bare string.
pub proof fn lemma_one_subclass_and_one_arm_per_variant(
    variants: Seq<DartVariant>,
    export_name: Seq<char>,
    generic_params: Seq<char>,
    codec: (Seq<char>, Seq<char>, Seq<char>),
    shape: (Option<Seq<char>>, bool, Seq<char>),
    names: DartNames,
)
    ensures
        ({
            let (subclasses, string_arms, map_arms) = tagged_arms(
                variants,
                export_name,
                generic_params,
                codec,
                shape,
                names,
            );
            &&& subclasses.len() == variants.len()
            &&& string_arms.len() + map_arms.len() == variants.len()
            &&& !is_external(shape) ==> string_arms.len() == 0
        }),
    decreases variants.len(),
{
    if variants.len() > 0 {
        lemma_one_subclass_and_one_arm_per_variant(
            variants.drop_last(),
            export_name,
            generic_params,
            codec,
            shape,
            names,
        );
    }
}

/// The `ws_rpc` client declares one method per operation, the handlers interface one handler per
/// operation, and the dispatcher one arm per operation.
pub proof fn lemma_one_method_handler_and_arm_per_operation(
    named: Seq<char>,
    fn_prefix: Seq<char>,
    operations: Seq<OperationDef>,
    has_headers: bool,
    recorded: Recorded,
    names: KotlinNames,
    st: Tuples,
)
    ensures
        client_methods_text(named, fn_prefix, operations, has_headers, recorded, names, st).0.len()
            == operations.len(),
        handler_members_text(named, operations, names, st).0.len() == operations.len(),
        dispatch_arms_text(named, fn_prefix, operations, recorded, names, st).0.len() == operations.len(),
    decreases operations.len(),
{
    if operations.len() > 0 {
        let rest = operations.drop_last();
        lemma_one_method_handler_and_arm_per_operation(named, fn_prefix, rest, has_headers, recorded, names, st);
    }
}

/// The Kotlin `http_rest` client class declares one method per operation.
pub proof fn lemma_one_http_method_per_operation(
    named: Seq<char>,
    fn_prefix: Seq<char>,
    operations: Seq<OperationDef>,
    has_multipart: bool,
    default_status: u16,
    recorded: Recorded,
    names: KotlinNames,
    st: Tuples,
)
    ensures
        methods_text(named, fn_prefix, operations, has_multipart, default_status, recorded, names, st).0.len()
            == operations.len(),
    decreases operations.len(),
{
    if operations.len() > 0 {
        lemma_one_http_method_per_operation(
            named,
            fn_prefix,
            operations.drop_last(),
            has_multipart,
            default_status,
            recorded,
            names,
            st,
        );
    }
}

/// What a TypeScript `http_rest` method opens with: its signature, then the check of its
/// message against the message's schema, ahead of anything that builds or sends the request.
pub open spec fn checked_opening_text(named: Seq<char>, operation: OperationDef, recorded: Recorded) -> Seq<char> {
    "    async "@ + operation.ts_name@ + "("@ + method_params_text(operation, recorded) + ") {\n"@ + validation_text(
        lower_first(named),
        operation,
        recorded,
    )
}

/// The TypeScript `http_rest` client answers one method per operation, in declaration order, and
/// every method checks its message against the message's schema before it builds or sends
/// anything.
pub proof fn lemma_every_ts_http_method_validates_first(service: ServiceDef)
    ensures
        ts_http_methods_text(service).len() == service.operations@.len(),
        forall|i: int|
            0 <= i < service.operations@.len() ==> checked_opening_text(
                service.ident@,
                service.operations@[i],
                service.recorded,
            ).is_prefix_of(#[trigger] ts_http_methods_text(service)[i]),
{
    reveal(method_text);
    assert forall|i: int| 0 <= i < service.operations@.len() implies checked_opening_text(
        service.ident@,
        service.operations@[i],
        service.recorded,
    ).is_prefix_of(#[trigger] ts_http_methods_text(service)[i]) by {
        let opening = checked_opening_text(service.ident@, service.operations@[i], service.recorded);
        let text = ts_http_methods_text(service)[i];
        let rest = text.subrange(opening.len() as int, text.len() as int);
        assert(text =~= opening + rest);
        assert(text.subrange(0, opening.len() as int) =~= opening);
    }
}

/// The TypeScript dispatcher has one arm per operation, in declaration order, and every arm parses
/// the payload against the message's schema, answering a framed fault where it fails, before it
/// reads a header or calls the implementation.
pub proof fn lemma_every_dispatch_arm_validates_first(service: ServiceDef)
    ensures
        arms_text(service).len() == service.operations@.len(),
        forall|i: int|
            0 <= i < service.operations@.len() ==> ("      case \""@ + service.operations@[i].wire_name@ + "\": {\n"@
                + payload_check_text(lower_first(service.ident@), service.operations@[i], service.recorded)).is_prefix_of(
                #[trigger] arms_text(service)[i],
            ),
{
    assert forall|i: int| 0 <= i < service.operations@.len() implies ("      case \""@ + service.operations@[i].wire_name@
        + "\": {\n"@ + payload_check_text(lower_first(service.ident@), service.operations@[i], service.recorded)).is_prefix_of(
        #[trigger] arms_text(service)[i],
    ) by {
        let opening = "      case \""@ + service.operations@[i].wire_name@ + "\": {\n"@ + payload_check_text(
            lower_first(service.ident@),
            service.operations@[i],
            service.recorded,
        );
        let text = arms_text(service)[i];
        let rest = text.subrange(opening.len() as int, text.len() as int);
        assert(text =~= opening + rest);
        assert(text.subrange(0, opening.len() as int) =~= opening);
    }
}

/// The Kotlin `http_rest` client publishes exactly one sealed result per operation that answers.
pub proof fn lemma_one_sealed_result_per_replying_operation(
    named: Seq<char>,
    operations: Seq<OperationDef>,
    recorded: Recorded,
    names: KotlinNames,
    st: Tuples,
)
    ensures
        result_interfaces_text(named, operations, recorded, names, st).0.len() == replying_count(operations),
    decreases operations.len(),
{
    if operations.len() > 0 {
        let rest = operations.drop_last();
        lemma_one_sealed_result_per_replying_operation(named, rest, recorded, names, st);
        let s1 = result_interfaces_text(named, rest, recorded, names, st).1;
        assert(result_interface_text(named, operations.last(), recorded, names, s1).0 is None <==> one_way(
            operations.last(),
        ));
    }
}

/// Once an item has published its Dart under a name, a reference to its Rust ident (with no
/// type arguments) is written under that name.
pub proof fn lemma_published_dart_item_is_referenced_by_its_name(
    before: DartNames,
    after: DartNames,
    rust_ident: Seq<char>,
    export_name: Seq<char>,
    reference: FieldDef,
)
    requires
        dart_registered(before, after, rust_ident, export_name),
        reference.field_type matches FieldDefType::SiblingType(name, generics) && name@ == rust_ident
            && generics@.len() == 0,
        reference.array_depth == 0,
        !reference.optional,
    ensures
        dart_type(reference, after) == export_name,
{
    assert(crate::features::dart::dart_scalar(reference, after) == export_name);
    assert(crate::features::dart::dart_at(reference, 0, after) == export_name);
}

/// Once an item has published its Kotlin under a name, a reference to its Rust ident (with no
/// type arguments) is written under that name, and queues no wrapper.
pub proof fn lemma_published_kotlin_item_is_referenced_by_its_name(
    before: KotlinNames,
    after: KotlinNames,
    rust_ident: Seq<char>,
    export_name: Seq<char>,
    reference: FieldDef,
    st: Tuples,
)
    requires
        registered(before, after, rust_ident, export_name),
        reference.field_type matches FieldDefType::SiblingType(name, generics) && name@ == rust_ident
            && generics@.len() == 0,
        reference.array_depth == 0,
        !reference.optional,
    ensures
        kt_type(reference, after, st) == (export_name, st),
{
    assert(crate::features::kotlin::kt_scalar(reference, after, st) == (export_name, st));
    assert(crate::features::kotlin::kt_at(reference, 0, after, st) == (export_name, st));
}

/// What rendering a Kotlin type may do to the tuple wrappers: queue declarations after those
/// already queued, and advance the counter by exactly as many, wrapping at 2^32.
pub open spec fn queue_grows(before: Tuples, after: Tuples) -> bool {
    &&& before.1.len() <= after.1.len()
    &&& after.1.take(before.1.len() as int) == before.1
    &&& after.0 as int == (before.0 as int + (after.1.len() - before.1.len())) % 0x1_0000_0000
}

proof fn lemma_queue_unchanged(st: Tuples)
    ensures
        queue_grows(st, st),
{
    assert(st.1.take(st.1.len() as int) =~= st.1);
    vstd::arithmetic::div_mod::lemma_small_mod(st.0 as nat, 0x1_0000_0000);
}

proof fn lemma_queue_grows_twice(a: Tuples, b: Tuples, c: Tuples)
    requires
        queue_grows(a, b),
        queue_grows(b, c),
    ensures
        queue_grows(a, c),
{
    assert(c.1.take(a.1.len() as int) =~= c.1.take(b.1.len() as int).take(a.1.len() as int));
    let kb = b.1.len() - a.1.len();
    let kc = c.1.len() - b.1.len();
    vstd::arithmetic::div_mod::lemma_add_mod_noop_right(kc, a.0 as int + kb, 0x1_0000_0000);
    assert(a.0 as int + kb + kc == a.0 as int + (c.1.len() - a.1.len()));
}

proof fn lemma_queue_grows_by_a_wrapper(st: Tuples, s3: Tuples, declaration: Seq<char>)
    requires
        queue_grows((next_index(st.0), st.1), s3),
    ensures
        queue_grows(st, (s3.0, s3.1.push(declaration))),
{
    let index = next_index(st.0);
    assert(index as int == (st.0 as int + 1) % 0x1_0000_0000) by {
        if st.0 == u32::MAX {
            vstd::arithmetic::div_mod::lemma_mod_self_0(0x1_0000_0000);
        } else {
            vstd::arithmetic::div_mod::lemma_small_mod((st.0 + 1) as nat, 0x1_0000_0000);
        }
    }
    let k = s3.1.len() - st.1.len();
    vstd::arithmetic::div_mod::lemma_add_mod_noop_right(k, st.0 as int + 1, 0x1_0000_0000);
    assert(s3.1.push(declaration).take(st.1.len() as int) =~= s3.1.take(st.1.len() as int));
}

/// Rendering a Kotlin type only ever queues tuple wrappers behind those already queued, and
/// advances the counter by exactly as many as it queued: two wrappers are never numbered alike
/// until the counter has gone all the way round.
pub proof fn lemma_kotlin_type_only_appends_wrappers(field: FieldDef, names: KotlinNames, st: Tuples)
    ensures
        queue_grows(st, kt_type(field, names, st).1),
    decreases field, 2nat, 0nat,
{
    lemma_kt_at_grows(field, field.array_depth as nat, names, st);
}

proof fn lemma_kt_at_grows(field: FieldDef, level: nat, names: KotlinNames, st: Tuples)
    ensures
        queue_grows(st, kt_at(field, level, names, st).1),
    decreases field, 1nat, level,
{
    if level == 0 {
        lemma_kt_scalar_grows(field, names, st);
    } else {
        lemma_kt_at_grows(field, (level - 1) as nat, names, st);
    }
}

proof fn lemma_kt_scalar_grows(field: FieldDef, names: KotlinNames, st: Tuples)
    ensures
        queue_grows(st, kt_scalar(field, names, st).1),
    decreases field, 0nat, 0nat,
{
    match field.field_type {
        FieldDefType::Tuple(elements) => {
            lemma_kt_tuple_grows(elements@, names, st);
        },
        FieldDefType::SiblingType(_, generics) => {
            if generics@.len() == 0 {
                lemma_queue_unchanged(st);
            } else {
                lemma_kt_list_grows(generics@, names, st);
            }
        },
        FieldDefType::Mapping(key, value) => {
            let s1 = kt_type(*key, names, st).1;
            lemma_kotlin_type_only_appends_wrappers(*key, names, st);
            lemma_kotlin_type_only_appends_wrappers(*value, names, s1);
            lemma_queue_grows_twice(st, s1, kt_type(*value, names, s1).1);
        },
        _ => {
            lemma_queue_unchanged(st);
        },
    }
}

proof fn lemma_kt_list_grows(fields: Seq<FieldDef>, names: KotlinNames, st: Tuples)
    ensures
        queue_grows(st, kt_list(fields, names, st).1),
    decreases fields, 0nat, 0nat,
{
    if fields.len() == 0 {
        lemma_queue_unchanged(st);
    } else {
        let s1 = kt_list(fields.drop_last(), names, st).1;
        lemma_kt_list_grows(fields.drop_last(), names, st);
        lemma_kotlin_type_only_appends_wrappers(fields.last(), names, s1);
        lemma_queue_grows_twice(st, s1, kt_type(fields.last(), names, s1).1);
    }
}

proof fn lemma_kt_ser_list_grows(
    fields: Seq<FieldDef>,
    type_parameters: Seq<Seq<char>>,
    names: KotlinNames,
    st: Tuples,
)
    ensures
        queue_grows(st, kt_ser_list(fields, type_parameters, names, st).1),
    decreases fields, 0nat, 0nat,
{
    if fields.len() == 0 {
        lemma_queue_unchanged(st);
    } else {
        let s1 = kt_ser_list(fields.drop_last(), type_parameters, names, st).1;
        lemma_kt_ser_list_grows(fields.drop_last(), type_parameters, names, st);
        lemma_kotlin_serializer_only_appends_wrappers(fields.last(), type_parameters, names, s1);
        lemma_queue_grows_twice(st, s1, kt_ser(fields.last(), type_parameters, names, s1).1);
    }
}

proof fn lemma_kt_tuple_grows(elements: Seq<FieldDef>, names: KotlinNames, st: Tuples)
    ensures
        queue_grows(st, kt_tuple(elements, names, st).1),
    decreases elements, 1nat, 0nat,
{
    let start = (next_index(st.0), st.1);
    let s1 = kt_list(elements, names, start).1;
    let s2 = kt_ser_list(elements, Seq::empty(), names, s1).1;
    let s3 = kt_ser_list(elements, Seq::empty(), names, s2).1;
    lemma_kt_list_grows(elements, names, start);
    lemma_kt_ser_list_grows(elements, Seq::empty(), names, s1);
    lemma_kt_ser_list_grows(elements, Seq::empty(), names, s2);
    lemma_queue_grows_twice(start, s1, s2);
    lemma_queue_grows_twice(start, s2, s3);
    let declaration = kt_tuple(elements, names, st).1.1.last();
    lemma_queue_grows_by_a_wrapper(st, s3, declaration);
}

/// Rendering a Kotlin serializer reference keeps the same promise as rendering a type: wrappers
/// are only ever queued behind those already queued, the counter advanced by as many.
pub proof fn lemma_kotlin_serializer_only_appends_wrappers(
    field: FieldDef,
    type_parameters: Seq<Seq<char>>,
    names: KotlinNames,
    st: Tuples,
)
    ensures
        queue_grows(st, kt_ser(field, type_parameters, names, st).1),
    decreases field, 5nat, 0nat,
{
    if !crate::features::kotlin::reaches_parameter(field, type_parameters) {
        lemma_kotlin_type_only_appends_wrappers(field, names, st);
    } else {
        match field.field_type {
            FieldDefType::TypeParam(_) => {
                lemma_queue_unchanged(st);
            },
            FieldDefType::SiblingType(_, generics) => {
                lemma_kt_ser_list_grows(generics@, type_parameters, names, st);
            },
            FieldDefType::Mapping(key, value) => {
                let sk = kt_ser(*key, type_parameters, names, st).1;
                lemma_kotlin_serializer_only_appends_wrappers(*key, type_parameters, names, st);
                lemma_kotlin_serializer_only_appends_wrappers(*value, type_parameters, names, sk);
                lemma_queue_grows_twice(st, sk, kt_ser(*value, type_parameters, names, sk).1);
            },
            FieldDefType::Tuple(_) => {
                lemma_kt_scalar_grows(field, names, st);
            },
            _ => {
                lemma_kotlin_type_only_appends_wrappers(field, names, st);
            },
        }
    }
}

/// A Kotlin type is marked nullable with one `?` exactly where the field is optional, one
/// spelling for every kind of optional field: the base type with `?` after it, or the base type
/// alone. Where the base type does not itself end in `?`, a written type ends in `?` exactly when
/// the field is optional.
pub proof fn lemma_kotlin_optional_is_one_question_mark(field: FieldDef, names: KotlinNames, st: Tuples)
    ensures
        field.optional ==> kt_type(field, names, st).0 == kt_at(field, field.array_depth as nat, names, st).0 + "?"@,
        !field.optional ==> kt_type(field, names, st).0 == kt_at(field, field.array_depth as nat, names, st).0,
        ({
            let base = kt_at(field, field.array_depth as nat, names, st).0;
            !ends_with(base, "?"@) ==> (ends_with(kt_type(field, names, st).0, "?"@) <==> field.optional)
        }),
{
    reveal_strlit("?");
    let base = kt_at(field, field.array_depth as nat, names, st).0;
    if field.optional {
        lemma_ends_with_concat(base, "?"@);
    }
}

/// Whether `text` ends with `suffix`.
pub open spec fn ends_with(text: Seq<char>, suffix: Seq<char>) -> bool {
    suffix.len() <= text.len() && text.subrange(text.len() - suffix.len(), text.len() as int) == suffix
}

/// The generic parameters a Dart item's `typedef` is written with: none for an enum written as
/// bare strings, the item's own otherwise.
pub open spec fn republished_params(item: DartItem) -> Seq<char> {
    match item {
        DartItem::Struct(decl) => generic_params_text(views(decl.type_parameters@)),
        DartItem::Alias(alias) => generic_params_text(views(alias.type_parameters@)),
        DartItem::Enum(item) => if all_unit(item.variants@) && item.tag is None && item.content is None
            && !item.untagged {
            ""@
        } else {
            generic_params_text(views(item.type_parameters@))
        },
        DartItem::Other => Seq::empty(),
    }
}

proof fn lemma_ends_with_concat(prefix: Seq<char>, suffix: Seq<char>)
    ensures
        ends_with(prefix + suffix, suffix),
{
    assert((prefix + suffix).subrange(prefix.len() as int, (prefix + suffix).len() as int) =~= suffix);
}

/// Every item the Dart surface publishes ends with the `typedef` that re-publishes it under its
/// Rust ident (nothing, for an item published under that ident already): a reference written
/// under the Rust ident before the item registered its name still resolves.
pub proof fn lemma_published_dart_item_republishes_its_ident(item: DartItem, names: DartNames)
    requires
        dart_item_names(item) is Some,
    ensures
        ends_with(
            dart_item_text(item, names),
            ident_typedef_text(
                (dart_item_names(item)->0).0,
                (dart_item_names(item)->0).1,
                republished_params(item),
            ),
        ),
{
    let (rust_ident, export_name) = dart_item_names(item)->0;
    let typedef = ident_typedef_text(rust_ident, export_name, republished_params(item));
    match item {
        DartItem::Struct(decl) => {
            lemma_struct_text_ends_with_typedef(decl, names);
        },
        DartItem::Alias(alias) => {
            lemma_value_wrapper_ends_with_typedef(
                rust_ident,
                export_name,
                views(alias.type_parameters@),
                dart_type(alias.target, names),
                crate::features::dart::dart_decode(alias.target, "json"@, names),
                crate::features::dart::dart_encode(alias.target, "value"@, names),
            );
        },
        DartItem::Enum(e) => {
            if all_unit(e.variants@) && e.tag is None && e.content is None && !e.untagged {
                let text = plain_enum_text(e);
                let prefix = text.take(text.len() - typedef.len());
                assert(text =~= prefix + typedef);
                lemma_ends_with_concat(prefix, typedef);
            } else if e.untagged {
                let text = untagged_enum_text(e, names);
                let prefix = text.take(text.len() - typedef.len());
                assert(text =~= prefix + typedef);
                lemma_ends_with_concat(prefix, typedef);
            } else {
                let text = tagged_enum_text(e, names);
                let prefix = text.take(text.len() - typedef.len());
                assert(text =~= prefix + typedef);
                lemma_ends_with_concat(prefix, typedef);
            }
        },
        DartItem::Other => {},
    }
}

proof fn lemma_value_wrapper_ends_with_typedef(
    rust_ident: Seq<char>,
    export_name: Seq<char>,
    type_parameters: Seq<Seq<char>>,
    value_type: Seq<char>,
    decode: Seq<char>,
    encode: Seq<char>,
)
    ensures
        ends_with(
            value_wrapper_text(rust_ident, export_name, type_parameters, value_type, decode, encode),
            ident_typedef_text(rust_ident, export_name, generic_params_text(type_parameters)),
        ),
{
    let text = value_wrapper_text(rust_ident, export_name, type_parameters, value_type, decode, encode);
    let typedef = ident_typedef_text(rust_ident, export_name, generic_params_text(type_parameters));
    let prefix = text.take(text.len() - typedef.len());
    assert(text =~= prefix + typedef);
    lemma_ends_with_concat(prefix, typedef);
}

proof fn lemma_struct_text_ends_with_typedef(decl: crate::declaration::StructDecl, names: DartNames)
    ensures
        ends_with(
            struct_text(decl, names),
            ident_typedef_text(
                decl.rust_ident@,
                decl.export_name@,
                generic_params_text(views(decl.type_parameters@)),
            ),
        ),
{
    let rust_ident = decl.rust_ident@;
    let export_name = decl.export_name@;
    let type_parameters = views(decl.type_parameters@);
    let typedef = ident_typedef_text(rust_ident, export_name, generic_params_text(type_parameters));
    let text = struct_text(decl, names);
    match decl.fields {
        StructFields::Unnamed(slots) => if wraps_one_value(decl) {
            lemma_value_wrapper_ends_with_typedef(
                rust_ident,
                export_name,
                type_parameters,
                dart_type(slots@[0].field, names),
                crate::features::dart::dart_decode(slots@[0].field, "json"@, names),
                crate::features::dart::dart_encode(slots@[0].field, "value"@, names),
            );
        } else {
            let kept = kept_slots(slots@);
            lemma_value_wrapper_ends_with_typedef(
                rust_ident,
                export_name,
                type_parameters,
                crate::features::dart::record_text(
                    crate::text::join(crate::features::dart::dart_list(kept, names), ", "@),
                    kept.len(),
                ),
                crate::features::dart::record_text(
                    crate::text::join(crate::features::dart::decode_elements(kept, "json"@, names), ", "@),
                    kept.len(),
                ),
                "["@ + crate::text::join(crate::features::dart::encode_elements(kept, "value"@, names), ", "@)
                    + "]"@,
            );
        },
        _ => {
            let prefix = text.take(text.len() - typedef.len());
            assert(text =~= prefix + typedef);
            lemma_ends_with_concat(prefix, typedef);
        },
    }
}

/// Every struct and alias the Kotlin surface publishes ends with the `typealias` that
/// re-publishes it under its Rust ident (nothing, for one published under that ident already).
#[verifier::spinoff_prover]
#[verifier::rlimit(40)]
pub proof fn lemma_published_kotlin_declaration_republishes_its_ident(
    item: KotlinItem,
    names: KotlinNames,
    st: Tuples,
)
    requires
        item is Struct || item is Alias,
    ensures
        ends_with(
            kotlin_item_text(item, names, st).0,
            ident_typealias_text(
                (kotlin_item_names(item)->0).0,
                (kotlin_item_names(item)->0).1,
                angled_text(
                    views(
                        match item {
                            KotlinItem::Struct(decl) => decl.type_parameters@,
                            KotlinItem::Alias(alias) => alias.type_parameters@,
                            _ => Seq::empty(),
                        },
                    ),
                ),
            ),
        ),
{
    let (rust_ident, export_name) = kotlin_item_names(item)->0;
    let text = kotlin_item_text(item, names, st).0;
    match item {
        KotlinItem::Struct(decl) => {
            let typealias = ident_typealias_text(rust_ident, export_name, angled_text(views(decl.type_parameters@)));
            let type_parameters = views(decl.type_parameters@);
            match decl.fields {
                StructFields::Unnamed(slots) => if wraps_one_value(decl) {
                    let value = KotlinValueStruct {
                        rust_ident: decl.rust_ident,
                        export_name: decl.export_name,
                        type_parameters: decl.type_parameters,
                        value: slots@[0].field,
                    };
                    assert(text == value_class_text(value, names, st).0);
                } else {
                    assert(text == tuple_struct_parts_text(
                        rust_ident,
                        export_name,
                        type_parameters,
                        kept_slots(slots@),
                        names,
                        st,
                    ).0);
                },
                _ => {},
            }
            let prefix = text.take(text.len() - typealias.len());
            assert(text =~= prefix + typealias);
            lemma_ends_with_concat(prefix, typealias);
        },
        KotlinItem::Alias(alias) => {
            let typealias = ident_typealias_text(rust_ident, export_name, angled_text(views(alias.type_parameters@)));
            let prefix = text.take(text.len() - typealias.len());
            assert(text =~= prefix + typealias);
            lemma_ends_with_concat(prefix, typealias);
        },
        _ => {},
    }
}

} // verus!
