//! The Kotlin a struct publishes, and the module an item's Kotlin is published from.
//!
//! Every item publishes its Kotlin from a module of its own, `{item}_kotlin`, whose
//! `kotlin_definition()` answers the item's declarations preceded by every tuple wrapper its
//! fields queued, which the module drains.
use crate::features::kotlin::{
    data_class_params, kotlin_property_name, kotlin_serializer_expr, kotlin_serializer_plain, kt_ser, kt_ser_plain,
    properties_text, KotlinField, angled_text, ident_typealias, ident_typealias_text, kotlin_generic_params, kotlin_serializers,
    kotlin_typename, kotlin_typenames, kt_list, kt_ser_list, kt_type, register_kotlin_name,
    serializer_declaration, serializer_declaration_text, slot_text, slotted, tuples_of, KotlinNames,
    TupleWrappers, Tuples,
};
use crate::field_type::{FieldDef, FieldDefType};
use crate::rename_rule::{camel_case, snake_case, snake_case_of_variant};
use crate::text::{join, join_all, rust_string_literal, string_literal, views};
use vstd::prelude::*;

verus! {

/// What a name registration leaves behind: the registrations before it, then this one.
pub open spec fn registered(before: KotlinNames, after: KotlinNames, rust_ident: Seq<char>, export_name: Seq<char>) -> bool {
    &&& after.entries@.len() == before.entries@.len() + 1
    &&& after.entries@.drop_last() == before.entries@
    &&& after.entries@.last().0@ == rust_ident
    &&& after.entries@.last().1@ == export_name
}

/// A struct that carries one wrapped value and nothing else (a transparent newtype, or a tuple
/// struct of one slot): the name it publishes under, its type parameters, and the value.
pub struct KotlinValueStruct {
    pub rust_ident: String,
    pub export_name: String,
    pub type_parameters: Vec<String>,
    pub value: FieldDef,
}

/// A `@JvmInline value class` over the one value, serialized as the value alone.
pub open spec fn value_class_text(item: KotlinValueStruct, names: KotlinNames, st: Tuples) -> (Seq<char>, Tuples) {
    let generic_params = angled_text(views(item.type_parameters@));
    let (value_type, s1) = kt_type(item.value, names, st);
    (
        "@JvmInline @Serializable value class "@ + item.export_name@ + generic_params + "(val value: "@
            + value_type + ")"@ + ident_typealias_text(item.rust_ident@, item.export_name@, generic_params),
        s1,
    )
}

/// Registers the struct's published name, then renders it.
pub fn value_class_source(item: &KotlinValueStruct, names: &mut KotlinNames, tuples: &mut TupleWrappers) -> (text:
    String)
    ensures
        registered(*old(names), *final(names), item.rust_ident@, item.export_name@),
        (text@, tuples_of(*final(tuples))) == value_class_text(*item, *final(names), tuples_of(*old(tuples))),
{
    register_kotlin_name(names, item.rust_ident.as_str(), item.export_name.as_str());
    let generic_params = kotlin_generic_params(&item.type_parameters);
    let value_type = kotlin_typename(&item.value, names, tuples);
    let mut text = String::from_str("@JvmInline @Serializable value class ");
    text.append(item.export_name.as_str());
    text.append(generic_params.as_str());
    text.append("(val value: ");
    text.append(value_type.as_str());
    text.append(")");
    text.append(
        ident_typealias(item.rust_ident.as_str(), item.export_name.as_str(), generic_params.as_str()).as_str(),
    );
    text
}

/// A tuple struct of several slots, as the Kotlin surface reads it: the slots that reach the wire,
/// in order.
pub struct KotlinTupleStruct {
    pub rust_ident: String,
    pub export_name: String,
    pub type_parameters: Vec<String>,
    pub slots: Vec<FieldDef>,
}

/// A `data class` over one property per slot, with a generated `KSerializer` that reads and
/// writes it as a JSON array.
pub open spec fn tuple_struct_text(item: KotlinTupleStruct, names: KotlinNames, st: Tuples) -> (Seq<char>, Tuples) {
    tuple_struct_parts_text(
        item.rust_ident@,
        item.export_name@,
        views(item.type_parameters@),
        item.slots@,
        names,
        st,
    )
}

/// [`tuple_struct_text`], from the struct's Rust ident, published name, type parameters and slots.
pub open spec fn tuple_struct_parts_text(
    rust_ident: Seq<char>,
    export_name: Seq<char>,
    type_parameters: Seq<Seq<char>>,
    slots: Seq<FieldDef>,
    names: KotlinNames,
    st: Tuples,
) -> (Seq<char>, Tuples) {
    let generic_params = angled_text(type_parameters);
    let (types, s1) = kt_list(slots, names, st);
    let (encoders, s2) = kt_ser_list(slots, type_parameters, names, s1);
    let (decoders, s3) = kt_ser_list(slots, type_parameters, names, s2);
    let params = join(Seq::new(types.len(), |i: int| slot_text(0, i as nat, types[i])), ", "@);
    let encodes = join(Seq::new(encoders.len(), |i: int| slot_text(1, i as nat, encoders[i])), "; "@);
    let decodes = join(Seq::new(decoders.len(), |i: int| slot_text(2, i as nat, decoders[i])), ", "@);
    (
        "@Serializable(with = "@ + export_name + "Serializer::class) data class "@ + export_name
            + generic_params + "("@ + params + ") "@ + serializer_declaration_text(export_name, type_parameters)
            + " : KSerializer<"@ + export_name + generic_params
            + "> { override val descriptor: SerialDescriptor = buildClassSerialDescriptor(\""@ + export_name
            + "\"); override fun serialize(encoder: Encoder, value: "@ + export_name + generic_params
            + ") { val output = encoder as JsonEncoder; output.encodeJsonElement(buildJsonArray { "@ + encodes
            + " }) }; override fun deserialize(decoder: Decoder): "@ + export_name + generic_params
            + " { val input = decoder as JsonDecoder; val array = input.decodeJsonElement().jsonArray; return "@
            + export_name + "("@ + decodes + ") } }"@ + ident_typealias_text(
            rust_ident,
            export_name,
            generic_params,
        ),
        s3,
    )
}

/// Registers the struct's published name, then renders it.
#[verifier::spinoff_prover]
pub fn tuple_struct_source(item: &KotlinTupleStruct, names: &mut KotlinNames, tuples: &mut TupleWrappers) -> (text:
    String)
    ensures
        registered(*old(names), *final(names), item.rust_ident@, item.export_name@),
        (text@, tuples_of(*final(tuples))) == tuple_struct_text(*item, *final(names), tuples_of(*old(tuples))),
{
    register_kotlin_name(names, item.rust_ident.as_str(), item.export_name.as_str());
    let export_name = item.export_name.as_str();
    let generic_params = kotlin_generic_params(&item.type_parameters);
    let head = serializer_declaration(export_name, &item.type_parameters);
    let types = kotlin_typenames(&item.slots, names, tuples);
    let encoders = kotlin_serializers(&item.slots, &item.type_parameters, names, tuples);
    let decoders = kotlin_serializers(&item.slots, &item.type_parameters, names, tuples);
    let params = join_all(&slotted(&types, 0), ", ");
    let encodes = join_all(&slotted(&encoders, 1), "; ");
    let decodes = join_all(&slotted(&decoders, 2), ", ");
    let ghost p = views(types@);
    assert(Seq::new(types@.len(), |i: int| slot_text(0, i as nat, types@[i]@)) =~= Seq::new(
        p.len(),
        |i: int| slot_text(0, i as nat, p[i]),
    ));
    let ghost e = views(encoders@);
    assert(Seq::new(encoders@.len(), |i: int| slot_text(1, i as nat, encoders@[i]@)) =~= Seq::new(
        e.len(),
        |i: int| slot_text(1, i as nat, e[i]),
    ));
    let ghost d = views(decoders@);
    assert(Seq::new(decoders@.len(), |i: int| slot_text(2, i as nat, decoders@[i]@)) =~= Seq::new(
        d.len(),
        |i: int| slot_text(2, i as nat, d[i]),
    ));
    let mut text = String::from_str("@Serializable(with = ");
    text.append(export_name);
    text.append("Serializer::class) data class ");
    text.append(export_name);
    text.append(generic_params.as_str());
    text.append("(");
    text.append(params.as_str());
    text.append(") ");
    text.append(head.as_str());
    text.append(" : KSerializer<");
    text.append(export_name);
    text.append(generic_params.as_str());
    text.append("> { override val descriptor: SerialDescriptor = buildClassSerialDescriptor(\"");
    text.append(export_name);
    text.append("\"); override fun serialize(encoder: Encoder, value: ");
    text.append(export_name);
    text.append(generic_params.as_str());
    text.append(") { val output = encoder as JsonEncoder; output.encodeJsonElement(buildJsonArray { ");
    text.append(encodes.as_str());
    text.append(" }) }; override fun deserialize(decoder: Decoder): ");
    text.append(export_name);
    text.append(generic_params.as_str());
    text.append(" { val input = decoder as JsonDecoder; val array = input.decodeJsonElement().jsonArray; return ");
    text.append(export_name);
    text.append("(");
    text.append(decodes.as_str());
    text.append(") } }");
    text.append(ident_typealias(item.rust_ident.as_str(), export_name, generic_params.as_str()).as_str());
    text
}

/// The source an item's module answers: every queued tuple wrapper, then the item's own
/// declarations.
pub open spec fn full_source_text(queued: Seq<Seq<char>>, kotlin_source: Seq<char>) -> Seq<char> {
    if queued.len() == 0 {
        kotlin_source
    } else {
        join(queued, " "@) + " "@ + kotlin_source
    }
}

/// The module an item's Kotlin is published from, as Rust source: `{item}_kotlin`, whose
/// `kotlin_definition()` answers the full source.
pub open spec fn module_text(rust_ident: Seq<char>, queued: Seq<Seq<char>>, kotlin_source: Seq<char>) -> Seq<char> {
    "pub mod "@ + snake_case(rust_ident) + "_kotlin {\npub fn kotlin_definition() -> String {\n"@
        + rust_string_literal(full_source_text(queued, kotlin_source)) + ".to_owned()\n}\n}\n"@
}

/// Publishes `kotlin_source` from the item's module, preceded by every tuple wrapper queued so
/// far; the queue is drained, the counter left as it is.
pub fn kotlin_module(rust_ident: &str, kotlin_source: &str, tuples: &mut TupleWrappers) -> (module: String)
    ensures
        module@ == module_text(rust_ident@, views(old(tuples).aux@), kotlin_source@),
        final(tuples).aux@.len() == 0,
        final(tuples).counter == old(tuples).counter,
{
    let full_source = if tuples.aux.len() == 0 {
        kotlin_source.to_owned()
    } else {
        let mut full = join_all(&tuples.aux, " ");
        full.append(" ");
        full.append(kotlin_source);
        full
    };
    tuples.aux = Vec::new();
    let mut module = String::from_str("pub mod ");
    module.append(snake_case_of_variant(rust_ident).as_str());
    module.append("_kotlin {\npub fn kotlin_definition() -> String {\n");
    module.append(string_literal(full_source.as_str()).as_str());
    module.append(".to_owned()\n}\n}\n");
    module
}

// ----- A struct with flattened fields: the serializer that merges their keys. -----

/// A field that is not flattened: its `serialize` statement, its `deserialize` statement, and the
/// key it is written under.
pub open spec fn own_field_plan_text(
    field: KotlinField,
    prop: Seq<char>,
    type_parameters: Seq<Seq<char>>,
    names: KotlinNames,
    st: Tuples,
) -> ((Seq<char>, Seq<char>, Seq<char>), Tuples) {
    let wire = field.wire_name@;
    let (serializer, s1) = kt_ser(field.field_def, type_parameters, names, st);
    let decode = if field.field_def.optional {
        "obj[\""@ + wire + "\"]?.let { input.json.decodeFromJsonElement("@ + serializer + ", it) }"@
    } else {
        "input.json.decodeFromJsonElement("@ + serializer + ", obj.getValue(\""@ + wire + "\"))"@
    };
    (
        (
            "put(\""@ + wire + "\", output.json.encodeToJsonElement("@ + serializer + ", value."@ + prop + "))"@,
            "val "@ + prop + " = "@ + decode,
            wire,
        ),
        s1,
    )
}

fn own_field_plan(
    field: &KotlinField,
    prop: &str,
    type_parameters: &Vec<String>,
    names: &KotlinNames,
    tuples: &mut TupleWrappers,
) -> (plan: (String, String, String))
    ensures
        ((plan.0@, plan.1@, plan.2@), tuples_of(*final(tuples))) == own_field_plan_text(
            *field,
            prop@,
            views(type_parameters@),
            *names,
            tuples_of(*old(tuples)),
        ),
{
    let wire = field.wire_name.as_str();
    let serializer = kotlin_serializer_expr(&field.field_def, type_parameters, names, tuples);
    let mut serialize = String::from_str("put(\"");
    serialize.append(wire);
    serialize.append("\", output.json.encodeToJsonElement(");
    serialize.append(serializer.as_str());
    serialize.append(", value.");
    serialize.append(prop);
    serialize.append("))");
    let mut decode = String::from_str("val ");
    decode.append(prop);
    decode.append(" = ");
    if field.field_def.optional {
        decode.append("obj[\"");
        decode.append(wire);
        decode.append("\"]?.let { input.json.decodeFromJsonElement(");
        decode.append(serializer.as_str());
        decode.append(", it) }");
    } else {
        decode.append("input.json.decodeFromJsonElement(");
        decode.append(serializer.as_str());
        decode.append(", obj.getValue(\"");
        decode.append(wire);
        decode.append("\"))");
    }
    (serialize, decode, wire.to_owned())
}

/// A flattened struct field: its keys merged into the enclosing object on `serialize`, read back
/// leniently off the whole object on `deserialize` (an optional one `null` when none of its keys
/// is present), and the name its key set is read into for a later flattened map.
pub open spec fn flatten_struct_plan_text(
    field: KotlinField,
    prop: Seq<char>,
    type_parameters: Seq<Seq<char>>,
    names: KotlinNames,
    st: Tuples,
) -> ((Seq<char>, Seq<char>, Seq<char>), Tuples) {
    let (inner, s1) = kt_ser_plain(field.field_def, type_parameters, names, st);
    let keys = prop + "Keys"@;
    let serialize = if field.field_def.optional {
        "value."@ + prop + "?.let { flattened -> output.json.encodeToJsonElement("@ + inner
            + ", flattened).jsonObject.forEach { (k, v) -> put(k, v) } }"@
    } else {
        "output.json.encodeToJsonElement("@ + inner + ", value."@ + prop
            + ").jsonObject.forEach { (k, v) -> put(k, v) }"@
    };
    let decode = if field.field_def.optional {
        "val "@ + prop + " = if (obj.keys.any { it in "@ + keys + " }) lenient.decodeFromJsonElement("@
            + inner + ", obj) else null"@
    } else {
        "val "@ + prop + " = lenient.decodeFromJsonElement("@ + inner + ", obj)"@
    };
    (
        (
            serialize,
            "val "@ + keys + " = ("@ + inner + ").descriptor.elementNames.toSet()"@ + "; "@ + decode,
            keys,
        ),
        s1,
    )
}

fn flatten_struct_field_plan(
    field: &KotlinField,
    prop: &str,
    type_parameters: &Vec<String>,
    names: &KotlinNames,
    tuples: &mut TupleWrappers,
) -> (plan: (String, String, String))
    ensures
        ((plan.0@, plan.1@, plan.2@), tuples_of(*final(tuples))) == flatten_struct_plan_text(
            *field,
            prop@,
            views(type_parameters@),
            *names,
            tuples_of(*old(tuples)),
        ),
{
    let inner = kotlin_serializer_plain(&field.field_def, type_parameters, names, tuples);
    let mut keys = prop.to_owned();
    keys.append("Keys");
    let serialize = if field.field_def.optional {
        let mut text = String::from_str("value.");
        text.append(prop);
        text.append("?.let { flattened -> output.json.encodeToJsonElement(");
        text.append(inner.as_str());
        text.append(", flattened).jsonObject.forEach { (k, v) -> put(k, v) } }");
        text
    } else {
        let mut text = String::from_str("output.json.encodeToJsonElement(");
        text.append(inner.as_str());
        text.append(", value.");
        text.append(prop);
        text.append(").jsonObject.forEach { (k, v) -> put(k, v) }");
        text
    };
    let mut deserialize = String::from_str("val ");
    deserialize.append(keys.as_str());
    deserialize.append(" = (");
    deserialize.append(inner.as_str());
    deserialize.append(").descriptor.elementNames.toSet()");
    deserialize.append("; ");
    deserialize.append("val ");
    deserialize.append(prop);
    if field.field_def.optional {
        deserialize.append(" = if (obj.keys.any { it in ");
        deserialize.append(keys.as_str());
        deserialize.append(" }) lenient.decodeFromJsonElement(");
        deserialize.append(inner.as_str());
        deserialize.append(", obj) else null");
    } else {
        deserialize.append(" = lenient.decodeFromJsonElement(");
        deserialize.append(inner.as_str());
        deserialize.append(", obj)");
    }
    proof {
        let decode = if field.field_def.optional {
            "val "@ + prop@ + " = if (obj.keys.any { it in "@ + keys@ + " }) lenient.decodeFromJsonElement("@
                + inner@ + ", obj) else null"@
        } else {
            "val "@ + prop@ + " = lenient.decodeFromJsonElement("@ + inner@ + ", obj)"@
        };
        assert(deserialize@ =~= "val "@ + keys@ + " = ("@ + inner@ + ").descriptor.elementNames.toSet()"@
            + "; "@ + decode);
    }
    (serialize, deserialize, keys)
}

/// The value of a flattened map field.
pub open spec fn map_value_of(field: FieldDef) -> FieldDef {
    match field.field_type {
        FieldDefType::Mapping(_, value) => *value,
        _ => field,
    }
}

/// The plan's statements field by field: each own field's, each flattened struct's, and the last
/// flattened map's property and value serializer, set aside for the end.
pub open spec fn plan_steps_text(
    fields: Seq<KotlinField>,
    type_parameters: Seq<Seq<char>>,
    names: KotlinNames,
    st: Tuples,
) -> (
    (Seq<Seq<char>>, Seq<Seq<char>>, Seq<Seq<char>>, bool),
    (Seq<Seq<char>>, Seq<Seq<char>>, Option<(Seq<char>, Seq<char>)>),
    Tuples,
)
    decreases fields.len(),
{
    if fields.len() == 0 {
        ((Seq::empty(), Seq::empty(), Seq::empty(), false), (Seq::empty(), Seq::empty(), None), st)
    } else {
        let ((serialize, deserialize, ctor_args, lenient), (own_keys, struct_keys, map_field), s1) =
            plan_steps_text(fields.drop_last(), type_parameters, names, st);
        let field = fields.last();
        let prop = camel_case(field.rust_name@);
        if !field.flatten {
            let ((a, b, wire), s2) = own_field_plan_text(field, prop, type_parameters, names, s1);
            (
                (serialize.push(a), deserialize.push(b), ctor_args.push(prop + " = "@ + prop), lenient),
                (own_keys.push(wire), struct_keys, map_field),
                s2,
            )
        } else if field.field_def.field_type is Mapping {
            let (value_serializer, s2) = kt_ser(map_value_of(field.field_def), type_parameters, names, s1);
            (
                (serialize, deserialize, ctor_args, lenient),
                (own_keys, struct_keys, Some((prop, value_serializer))),
                s2,
            )
        } else {
            let ((a, b, keys), s2) = flatten_struct_plan_text(field, prop, type_parameters, names, s1);
            (
                (serialize.push(a), deserialize.push(b), ctor_args.push(prop + " = "@ + prop), true),
                (own_keys, struct_keys.push(keys), map_field),
                s2,
            )
        }
    }
}

/// The keys a flattened map leaves alone: every own field's key, then every flattened struct's.
pub open spec fn consumed_keys_text(own_keys: Seq<Seq<char>>, struct_keys: Seq<Seq<char>>) -> Seq<char> {
    join(
        seq!["setOf("@ + join(own_keys.map_values(|k: Seq<char>| "\""@ + k + "\""@), ", "@) + ")"@]
            + struct_keys,
        " + "@,
    )
}

/// The whole plan: every field's statements and constructor argument, the flattened map's last,
/// over whatever keys the others leave.
pub open spec fn flatten_plan_text(fields: Seq<KotlinField>, type_parameters: Seq<Seq<char>>, names: KotlinNames, st: Tuples) -> (
    (Seq<Seq<char>>, Seq<Seq<char>>, Seq<Seq<char>>, bool),
    Tuples,
) {
    let ((serialize, deserialize, ctor_args, lenient), (own_keys, struct_keys, map_field), s1) =
        plan_steps_text(fields, type_parameters, names, st);
    match map_field {
        None => ((serialize, deserialize, ctor_args, lenient), s1),
        Some((prop, value_serializer)) => {
            let consumed = consumed_keys_text(own_keys, struct_keys);
            (
                (
                    serialize.push(
                        "value."@ + prop + ".forEach { (k, v) -> put(k, output.json.encodeToJsonElement("@
                            + value_serializer + ", v)) }"@,
                    ),
                    deserialize.push(
                        "val "@ + prop + "ConsumedKeys = "@ + consumed + "; val "@ + prop
                            + " = obj.filterKeys { it !in "@ + prop
                            + "ConsumedKeys }.mapValues { (_, v) -> input.json.decodeFromJsonElement("@
                            + value_serializer + ", v) }"@,
                    ),
                    ctor_args.push(prop + " = "@ + prop),
                    lenient,
                ),
                s1,
            )
        },
    }
}

/// Optional text pairs, as their characters.
pub open spec fn pair_view(pair: Option<(String, String)>) -> Option<(Seq<char>, Seq<char>)> {
    match pair {
        Some((a, b)) => Some((a@, b@)),
        None => None,
    }
}

/// The constructor argument a field is passed back as.
fn ctor_arg(prop: &str) -> (arg: String)
    ensures
        arg@ == prop@ + " = "@ + prop@,
{
    let mut arg = prop.to_owned();
    arg.append(" = ");
    arg.append(prop);
    arg
}

fn consumed_keys(own_keys: &Vec<String>, struct_keys: &Vec<String>) -> (text: String)
    ensures
        text@ == consumed_keys_text(views(own_keys@), views(struct_keys@)),
{
    let ghost own = views(own_keys@);
    let mut quoted: Vec<String> = Vec::new();
    let mut i: usize = 0;
    while i < own_keys.len()
        invariant
            0 <= i <= own_keys.len(),
            own == views(own_keys@),
            views(quoted@) == own.take(i as int).map_values(|k: Seq<char>| "\""@ + k + "\""@),
        decreases own_keys.len() - i,
    {
        let mut key = String::from_str("\"");
        key.append(own_keys[i].as_str());
        key.append("\"");
        let ghost before = views(quoted@);
        quoted.push(key);
        assert(views(quoted@) =~= before.push(key@));
        assert(own.take(i + 1) =~= own.take(i as int).push(own[i as int]));
        assert(own.take(i + 1).map_values(|k: Seq<char>| "\""@ + k + "\""@) =~= own.take(i as int).map_values(
            |k: Seq<char>| "\""@ + k + "\""@,
        ).push("\""@ + own[i as int] + "\""@));
        i += 1;
    }
    assert(own.take(own_keys.len() as int) =~= own);
    let mut literal = String::from_str("setOf(");
    literal.append(join_all(&quoted, ", ").as_str());
    literal.append(")");
    let mut all: Vec<String> = Vec::new();
    all.push(literal);
    let mut j: usize = 0;
    while j < struct_keys.len()
        invariant
            0 <= j <= struct_keys.len(),
            views(all@) == seq![literal@] + views(struct_keys@).take(j as int),
        decreases struct_keys.len() - j,
    {
        let ghost before = views(all@);
        all.push(struct_keys[j].clone());
        assert(views(all@) =~= before.push(struct_keys@[j as int]@));
        assert(views(struct_keys@).take(j + 1) =~= views(struct_keys@).take(j as int).push(struct_keys@[j as int]@));
        j += 1;
    }
    assert(views(struct_keys@).take(struct_keys.len() as int) =~= views(struct_keys@));
    join_all(&all, " + ")
}

#[verifier::spinoff_prover]
#[verifier::rlimit(40)]
fn flatten_plan(
    fields: &Vec<KotlinField>,
    type_parameters: &Vec<String>,
    names: &KotlinNames,
    tuples: &mut TupleWrappers,
) -> (plan: (Vec<String>, Vec<String>, Vec<String>, bool))
    ensures
        ((views(plan.0@), views(plan.1@), views(plan.2@), plan.3), tuples_of(*final(tuples))) == flatten_plan_text(
            fields@,
            views(type_parameters@),
            *names,
            tuples_of(*old(tuples)),
        ),
{
    let ghost start = tuples_of(*tuples);
    let mut serialize: Vec<String> = Vec::new();
    let mut deserialize: Vec<String> = Vec::new();
    let mut ctor_args: Vec<String> = Vec::new();
    let mut lenient = false;
    let mut own_keys: Vec<String> = Vec::new();
    let mut struct_keys: Vec<String> = Vec::new();
    let mut map_field: Option<(String, String)> = None;
    let mut i: usize = 0;
    while i < fields.len()
        invariant
            0 <= i <= fields.len(),
            (
                (views(serialize@), views(deserialize@), views(ctor_args@), lenient),
                (views(own_keys@), views(struct_keys@), pair_view(map_field)),
                tuples_of(*tuples),
            ) == plan_steps_text(fields@.take(i as int), views(type_parameters@), *names, start),
        decreases fields.len() - i,
    {
        assert(fields@.take(i + 1).drop_last() =~= fields@.take(i as int));
        let field = &fields[i];
        let prop = kotlin_property_name(field.rust_name.as_str());
        let ghost (b1, b2, b3, b4, b5) = (
            views(serialize@),
            views(deserialize@),
            views(ctor_args@),
            views(own_keys@),
            views(struct_keys@),
        );
        if !field.flatten {
            let (a, b, wire) = own_field_plan(field, prop.as_str(), type_parameters, names, tuples);
            serialize.push(a);
            deserialize.push(b);
            own_keys.push(wire);
            ctor_args.push(ctor_arg(prop.as_str()));
            assert(views(serialize@) =~= b1.push(serialize@.last()@));
            assert(views(deserialize@) =~= b2.push(deserialize@.last()@));
            assert(views(own_keys@) =~= b4.push(own_keys@.last()@));
            assert(views(ctor_args@) =~= b3.push(ctor_args@.last()@));
        } else {
            match &field.field_def.field_type {
                FieldDefType::Mapping(_, value) => {
                    let value_serializer = kotlin_serializer_expr(value, type_parameters, names, tuples);
                    map_field = Some((prop, value_serializer));
                },
                _ => {
                    let (a, b, keys) = flatten_struct_field_plan(field, prop.as_str(), type_parameters, names, tuples);
                    lenient = true;
                    serialize.push(a);
                    deserialize.push(b);
                    struct_keys.push(keys);
                    ctor_args.push(ctor_arg(prop.as_str()));
                    assert(views(serialize@) =~= b1.push(serialize@.last()@));
                    assert(views(deserialize@) =~= b2.push(deserialize@.last()@));
                    assert(views(struct_keys@) =~= b5.push(struct_keys@.last()@));
                    assert(views(ctor_args@) =~= b3.push(ctor_args@.last()@));
                },
            }
        }
        i += 1;
    }
    assert(fields@.take(fields.len() as int) =~= fields@);
    match map_field {
        None => {},
        Some((prop, value_serializer)) => {
            let consumed = consumed_keys(&own_keys, &struct_keys);
            let mut map_serialize = String::from_str("value.");
            map_serialize.append(prop.as_str());
            map_serialize.append(".forEach { (k, v) -> put(k, output.json.encodeToJsonElement(");
            map_serialize.append(value_serializer.as_str());
            map_serialize.append(", v)) }");
            let mut map_deserialize = String::from_str("val ");
            map_deserialize.append(prop.as_str());
            map_deserialize.append("ConsumedKeys = ");
            map_deserialize.append(consumed.as_str());
            map_deserialize.append("; val ");
            map_deserialize.append(prop.as_str());
            map_deserialize.append(" = obj.filterKeys { it !in ");
            map_deserialize.append(prop.as_str());
            map_deserialize.append("ConsumedKeys }.mapValues { (_, v) -> input.json.decodeFromJsonElement(");
            map_deserialize.append(value_serializer.as_str());
            map_deserialize.append(", v) }");
            let ghost (b1, b2, b3) = (views(serialize@), views(deserialize@), views(ctor_args@));
            serialize.push(map_serialize);
            deserialize.push(map_deserialize);
            ctor_args.push(ctor_arg(prop.as_str()));
            assert(views(serialize@) =~= b1.push(serialize@.last()@));
            assert(views(deserialize@) =~= b2.push(deserialize@.last()@));
            assert(views(ctor_args@) =~= b3.push(ctor_args@.last()@));
        },
    }
    (serialize, deserialize, ctor_args, lenient)
}

/// The serializer a struct with flattened fields is bound to: it writes each own field under its
/// key and merges each flattened value's keys into the enclosing object, and reads them back the
/// same way, leniently where a flattened struct must ignore the other fields' keys.
pub open spec fn flatten_serializer_text(
    export_name: Seq<char>,
    generic_params: Seq<char>,
    type_parameters: Seq<Seq<char>>,
    fields: Seq<KotlinField>,
    names: KotlinNames,
    st: Tuples,
) -> (Seq<char>, Tuples) {
    let self_type = export_name + generic_params;
    let ((serialize, deserialize, ctor_args, lenient), s1) = flatten_plan_text(fields, type_parameters, names, st);
    let lenient_field = if lenient {
        "private val lenient = Json { ignoreUnknownKeys = true }; "@
    } else {
        ""@
    };
    (
        serializer_declaration_text(export_name, type_parameters) + " : KSerializer<"@ + self_type
            + "> { override val descriptor: SerialDescriptor = buildClassSerialDescriptor(\""@ + export_name
            + "\"); "@ + lenient_field + "override fun serialize(encoder: Encoder, value: "@ + self_type
            + ") { val output = encoder as JsonEncoder; output.encodeJsonElement(buildJsonObject { "@
            + join(serialize, "; "@) + " }) }"@ + "; "@ + "override fun deserialize(decoder: Decoder): "@
            + self_type
            + " { val input = decoder as JsonDecoder; val obj = input.decodeJsonElement().jsonObject; "@
            + join(deserialize, "; "@) + "; return "@ + export_name + "("@ + join(ctor_args, ", "@) + ") }"@
            + " }"@,
        s1,
    )
}

fn flatten_merging_serializer(
    export_name: &str,
    generic_params: &str,
    type_parameters: &Vec<String>,
    fields: &Vec<KotlinField>,
    names: &KotlinNames,
    tuples: &mut TupleWrappers,
) -> (text: String)
    ensures
        (text@, tuples_of(*final(tuples))) == flatten_serializer_text(
            export_name@,
            generic_params@,
            views(type_parameters@),
            fields@,
            *names,
            tuples_of(*old(tuples)),
        ),
{
    let mut self_type = export_name.to_owned();
    self_type.append(generic_params);
    let head = serializer_declaration(export_name, type_parameters);
    let (serialize, deserialize, ctor_args, lenient) = flatten_plan(fields, type_parameters, names, tuples);
    let mut text = head;
    text.append(" : KSerializer<");
    text.append(self_type.as_str());
    text.append("> { override val descriptor: SerialDescriptor = buildClassSerialDescriptor(\"");
    text.append(export_name);
    text.append("\"); ");
    let lenient_field = if lenient {
        "private val lenient = Json { ignoreUnknownKeys = true }; "
    } else {
        ""
    };
    text.append(lenient_field);
    text.append("override fun serialize(encoder: Encoder, value: ");
    text.append(self_type.as_str());
    text.append(") { val output = encoder as JsonEncoder; output.encodeJsonElement(buildJsonObject { ");
    text.append(join_all(&serialize, "; ").as_str());
    text.append(" }) }");
    text.append("; ");
    text.append("override fun deserialize(decoder: Decoder): ");
    text.append(self_type.as_str());
    text.append(" { val input = decoder as JsonDecoder; val obj = input.decodeJsonElement().jsonObject; ");
    text.append(join_all(&deserialize, "; ").as_str());
    text.append("; return ");
    text.append(export_name);
    text.append("(");
    text.append(join_all(&ctor_args, ", ").as_str());
    text.append(") }");
    text.append(" }");
    text
}

/// A struct with named fields, or none, as the Kotlin surface reads it: the name it publishes
/// under, its type parameters, whether it is a unit struct, and its fields on the wire.
pub struct KotlinStruct {
    pub rust_ident: String,
    pub export_name: String,
    pub type_parameters: Vec<String>,
    pub unit: bool,
    pub fields: Vec<KotlinField>,
}

/// Whether any field is flattened.
pub open spec fn any_flatten(fields: Seq<KotlinField>) -> bool {
    exists|i: int| 0 <= i < fields.len() && (#[trigger] fields[i]).flatten
}

/// A unit struct is an `object`; a braced struct with no field a `class`; any other a
/// `data class` of its fields, bound to a merging serializer where a field is flattened; then the
/// `typealias` a renamed struct re-publishes under its Rust ident.
pub open spec fn struct_text(item: KotlinStruct, names: KotlinNames, st: Tuples) -> (Seq<char>, Tuples) {
    struct_parts_text(
        item.rust_ident@,
        item.export_name@,
        views(item.type_parameters@),
        item.unit,
        item.fields@,
        names,
        st,
    )
}

/// [`struct_text`], from the struct's Rust ident, published name, type parameters, whether it
/// is a unit struct, and its fields.
pub open spec fn struct_parts_text(
    rust_ident: Seq<char>,
    export_name: Seq<char>,
    type_parameters: Seq<Seq<char>>,
    unit: bool,
    fields: Seq<KotlinField>,
    names: KotlinNames,
    st: Tuples,
) -> (Seq<char>, Tuples) {
    let generic_params = angled_text(type_parameters);
    let alias = ident_typealias_text(rust_ident, export_name, generic_params);
    let (body, s1) = if unit {
        ("object "@ + export_name + generic_params, st)
    } else if fields.len() == 0 {
        ("class "@ + export_name + generic_params, st)
    } else {
        let (rendered, s) = properties_text(fields, names, st);
        ("data class "@ + export_name + generic_params + "("@ + join(rendered, ", "@) + ")"@, s)
    };
    if any_flatten(fields) {
        let (serializer, s2) = flatten_serializer_text(
            export_name,
            generic_params,
            type_parameters,
            fields,
            names,
            s1,
        );
        (
            "@Serializable(with = "@ + export_name + "Serializer::class) "@ + body + " "@ + serializer + alias,
            s2,
        )
    } else {
        ("@Serializable "@ + body + alias, s1)
    }
}

fn has_flatten(fields: &Vec<KotlinField>) -> (found: bool)
    ensures
        found == any_flatten(fields@),
{
    let mut i: usize = 0;
    while i < fields.len()
        invariant
            0 <= i <= fields.len(),
            forall|j: int| 0 <= j < i ==> !(#[trigger] fields@[j]).flatten,
        decreases fields.len() - i,
    {
        if fields[i].flatten {
            return true;
        }
        i += 1;
    }
    false
}

/// Registers the struct's published name, then renders it.
#[verifier::spinoff_prover]
pub fn struct_kotlin_source(item: &KotlinStruct, names: &mut KotlinNames, tuples: &mut TupleWrappers) -> (text:
    String)
    ensures
        registered(*old(names), *final(names), item.rust_ident@, item.export_name@),
        (text@, tuples_of(*final(tuples))) == struct_text(*item, *final(names), tuples_of(*old(tuples))),
{
    register_kotlin_name(names, item.rust_ident.as_str(), item.export_name.as_str());
    let export_name = item.export_name.as_str();
    let generic_params = kotlin_generic_params(&item.type_parameters);
    let alias = ident_typealias(item.rust_ident.as_str(), export_name, generic_params.as_str());
    let body = if item.unit {
        let mut body = String::from_str("object ");
        body.append(export_name);
        body.append(generic_params.as_str());
        body
    } else if item.fields.len() == 0 {
        let mut body = String::from_str("class ");
        body.append(export_name);
        body.append(generic_params.as_str());
        body
    } else {
        let params = data_class_params(&item.fields, names, tuples);
        let mut body = String::from_str("data class ");
        body.append(export_name);
        body.append(generic_params.as_str());
        body.append("(");
        body.append(params.as_str());
        body.append(")");
        body
    };
    if has_flatten(&item.fields) {
        let serializer = flatten_merging_serializer(
            export_name,
            generic_params.as_str(),
            &item.type_parameters,
            &item.fields,
            names,
            tuples,
        );
        let mut text = String::from_str("@Serializable(with = ");
        text.append(export_name);
        text.append("Serializer::class) ");
        text.append(body.as_str());
        text.append(" ");
        text.append(serializer.as_str());
        text.append(alias.as_str());
        text
    } else {
        let mut text = String::from_str("@Serializable ");
        text.append(body.as_str());
        text.append(alias.as_str());
        text
    }
}

} // verus!
