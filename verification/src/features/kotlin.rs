//! Kotlin type and `kotlinx.serialization` generation: the Kotlin type a field is written as, and
//! the `KSerializer` that reads and writes it.
//!
//! A tuple has no Kotlin spelling of its own, so each tuple-shaped type earns a wrapper
//! `data class` plus the serializer that reads and writes it as a JSON array. Wrappers are
//! numbered from a counter that runs across the whole compilation, so two never collide, and are
//! queued for the item being rendered to publish ahead of its own declaration.
use crate::field_type::{decimal, decimal_text, is_nullable_at, nullable_at, FieldDef, FieldDefType};
use crate::rename_rule::{camel_case, camel_case_of_field, camel_case_of_variant, lower_first};
use crate::text::{join, join_all, views};
pub mod dispatch;
pub mod enums;
pub mod items;

use vstd::prelude::*;

verus! {

/// The Kotlin class or enum name each Rust ident publishes under, in the order they registered.
pub struct KotlinNames {
    pub entries: Vec<(String, String)>,
}

/// The tuple wrappers written so far: the last number handed out, and the declarations queued
/// for the item being rendered.
pub struct TupleWrappers {
    pub counter: u32,
    pub aux: Vec<String>,
}

/// The wrapper state as the specification threads it: the counter, and the queued declarations.
pub type Tuples = (u32, Seq<Seq<char>>);

pub open spec fn tuples_of(wrappers: TupleWrappers) -> Tuples {
    (wrappers.counter, views(wrappers.aux@))
}

/// The name most recently registered for `rust_ident`.
pub open spec fn kotlin_lookup(entries: Seq<(String, String)>, rust_ident: Seq<char>) -> Option<
    Seq<char>,
>
    decreases entries.len(),
{
    if entries.len() == 0 {
        None
    } else if entries.last().0@ == rust_ident {
        Some(entries.last().1@)
    } else {
        kotlin_lookup(entries.drop_last(), rust_ident)
    }
}

/// The name a reference to `rust_ident` is written under: the registered one, else the ident.
pub open spec fn kotlin_class_name(names: KotlinNames, rust_ident: Seq<char>) -> Seq<char> {
    match kotlin_lookup(names.entries@, rust_ident) {
        Some(name) => name,
        None => rust_ident,
    }
}

/// The Kotlin name registered for `rust_ident`, or `None` for a type not registered yet.
pub fn lookup_kotlin_name(names: &KotlinNames, rust_ident: &str) -> (found: Option<String>)
    ensures
        match found {
            Some(name) => kotlin_lookup(names.entries@, rust_ident@) == Some(name@),
            None => kotlin_lookup(names.entries@, rust_ident@) is None,
        },
{
    let owned = rust_ident.to_owned();
    let mut i: usize = names.entries.len();
    assert(names.entries@.take(i as int) =~= names.entries@);
    while i > 0
        invariant
            0 <= i <= names.entries.len(),
            owned@ == rust_ident@,
            kotlin_lookup(names.entries@.take(i as int), rust_ident@) == kotlin_lookup(
                names.entries@,
                rust_ident@,
            ),
        decreases i,
    {
        assert(names.entries@.take(i as int).drop_last() =~= names.entries@.take(i - 1));
        if names.entries[i - 1].0 == owned {
            return Some(names.entries[i - 1].1.clone());
        }
        i -= 1;
    }
    None
}

/// Records the Kotlin name `rust_ident` publishes under, for a later reference to read back.
pub fn register_kotlin_name(names: &mut KotlinNames, rust_ident: &str, export_name: &str)
    ensures
        final(names).entries@.len() == old(names).entries@.len() + 1,
        final(names).entries@.drop_last() == old(names).entries@,
        final(names).entries@.last().0@ == rust_ident@,
        final(names).entries@.last().1@ == export_name@,
{
    names.entries.push((rust_ident.to_owned(), export_name.to_owned()));
    assert(names.entries@.drop_last() =~= old(names).entries@);
}

fn class_name(names: &KotlinNames, rust_ident: &String) -> (class: String)
    ensures
        class@ == kotlin_class_name(*names, rust_ident@),
{
    match lookup_kotlin_name(names, rust_ident.as_str()) {
        Some(name) => name,
        None => rust_ident.clone(),
    }
}

/// The `u64` or `usize` width a type is, or reaches at any depth, in declaration order.
pub open spec fn refused_width(field: FieldDef) -> Option<Seq<char>>
    decreases field, 1nat,
{
    match field.field_type {
        FieldDefType::U64 => Some("u64"@),
        FieldDefType::Usize => Some("usize"@),
        FieldDefType::SiblingType(_, generics) => first_refused_width(generics@),
        FieldDefType::Mapping(key, value) => match refused_width(*key) {
            Some(width) => Some(width),
            None => refused_width(*value),
        },
        FieldDefType::Tuple(elements) => first_refused_width(elements@),
        _ => None,
    }
}

/// The first refused width any of `fields` reaches.
pub open spec fn first_refused_width(fields: Seq<FieldDef>) -> Option<Seq<char>>
    decreases fields, 0nat,
{
    if fields.len() == 0 {
        None
    } else {
        match refused_width(fields[0]) {
            Some(width) => Some(width),
            None => first_refused_width(fields.drop_first()),
        }
    }
}

fn first_refused_width_of(fields: &Vec<FieldDef>) -> (width: Option<&'static str>)
    ensures
        match width {
            Some(w) => first_refused_width(fields@) == Some(w@),
            None => first_refused_width(fields@) is None,
        },
    decreases fields@, 0nat,
{
    let mut i: usize = 0;
    assert(fields@.skip(0) =~= fields@);
    while i < fields.len()
        invariant
            0 <= i <= fields.len(),
            first_refused_width(fields@.skip(i as int)) == first_refused_width(fields@),
        decreases fields.len() - i,
    {
        assert(decreases_to!(fields@ => fields@[i as int]));
        assert(fields@.skip(i as int)[0] == fields@[i as int]);
        assert(fields@.skip(i as int).drop_first() =~= fields@.skip(i + 1));
        let width = kotlin_refused_width(&fields[i]);
        if width.is_some() {
            return width;
        }
        i += 1;
    }
    assert(fields@.skip(i as int) =~= Seq::<FieldDef>::empty());
    None
}

/// The `u64`/`usize` width `field` is, or at any depth reaches, or `None`. Kotlin has a `ULong`
/// that could carry `u64`; the refusal exists for parity with the Swift target.
pub fn kotlin_refused_width(field: &FieldDef) -> (width: Option<&'static str>)
    ensures
        match width {
            Some(w) => refused_width(*field) == Some(w@),
            None => refused_width(*field) is None,
        },
    decreases field, 1nat,
{
    match &field.field_type {
        FieldDefType::U64 => Some("u64"),
        FieldDefType::Usize => Some("usize"),
        FieldDefType::SiblingType(_, generics) => first_refused_width_of(generics),
        FieldDefType::Mapping(key, value) => {
            let width = kotlin_refused_width(key);
            if width.is_some() {
                width
            } else {
                kotlin_refused_width(value)
            }
        },
        FieldDefType::Tuple(elements) => first_refused_width_of(elements),
        _ => None,
    }
}

/// `rust_name` cased the way a Kotlin property is: `conversation_id` becomes `conversationId`.
pub fn kotlin_property_name(rust_name: &str) -> (name: String)
    ensures
        name@ == camel_case(rust_name@),
{
    camel_case_of_field(rust_name)
}

/// The constructor property one type parameter's own `KSerializer` is bound to: `tSerializer`.
pub open spec fn serializer_param_name(parameter: Seq<char>) -> Seq<char> {
    lower_first(parameter) + "Serializer"@
}

pub fn kotlin_serializer_param_name(parameter: &str) -> (name: String)
    ensures
        name@ == serializer_param_name(parameter@),
{
    let mut name = camel_case_of_variant(parameter);
    name.append("Serializer");
    name
}

/// Whether `field` reaches one of `type_parameters` at any depth.
pub open spec fn reaches_parameter(field: FieldDef, type_parameters: Seq<Seq<char>>) -> bool
    decreases field, 1nat,
{
    match field.field_type {
        FieldDefType::TypeParam(name) => type_parameters.contains(name@),
        FieldDefType::SiblingType(_, generics) => any_reaches_parameter(generics@, type_parameters),
        FieldDefType::Mapping(key, value) => reaches_parameter(*key, type_parameters)
            || reaches_parameter(*value, type_parameters),
        FieldDefType::Tuple(elements) => any_reaches_parameter(elements@, type_parameters),
        _ => false,
    }
}

pub open spec fn any_reaches_parameter(fields: Seq<FieldDef>, type_parameters: Seq<Seq<char>>) -> bool
    decreases fields, 0nat,
{
    if fields.len() == 0 {
        false
    } else {
        any_reaches_parameter(fields.drop_last(), type_parameters) || reaches_parameter(
            fields.last(),
            type_parameters,
        )
    }
}

fn any_reaches(fields: &Vec<FieldDef>, type_parameters: &Vec<String>) -> (reaches: bool)
    ensures
        reaches == any_reaches_parameter(fields@, views(type_parameters@)),
    decreases fields@, 0nat,
{
    let mut i: usize = 0;
    while i < fields.len()
        invariant
            0 <= i <= fields.len(),
            !any_reaches_parameter(fields@.take(i as int), views(type_parameters@)),
        decreases fields.len() - i,
    {
        assert(decreases_to!(fields@ => fields@[i as int]));
        assert(fields@.take(i + 1).drop_last() =~= fields@.take(i as int));
        if field_reaches_type_parameter(&fields[i], type_parameters) {
            assert(any_reaches_parameter(fields@.take(i + 1), views(type_parameters@)));
            assert(any_reaches_parameter(fields@, views(type_parameters@))) by {
                lemma_reaches_prefix(fields@, i + 1, views(type_parameters@));
            }
            return true;
        }
        i += 1;
    }
    assert(fields@.take(fields.len() as int) =~= fields@);
    false
}

/// A prefix reaching a parameter makes the whole list reach it.
proof fn lemma_reaches_prefix(fields: Seq<FieldDef>, k: int, type_parameters: Seq<Seq<char>>)
    requires
        0 <= k <= fields.len(),
        any_reaches_parameter(fields.take(k), type_parameters),
    ensures
        any_reaches_parameter(fields, type_parameters),
    decreases fields.len() - k,
{
    if k < fields.len() {
        assert(fields.take(k + 1).drop_last() =~= fields.take(k));
        lemma_reaches_prefix(fields, k + 1, type_parameters);
    } else {
        assert(fields.take(k) =~= fields);
    }
}

/// Whether `field` reaches one of `type_parameters` at any depth: decides whether its
/// `KSerializer` must be composed from the enclosing item's own constructor serializers instead
/// of the reified `serializer<T>()`, which needs a concrete type.
pub fn field_reaches_type_parameter(field: &FieldDef, type_parameters: &Vec<String>) -> (reaches:
    bool)
    ensures
        reaches == reaches_parameter(*field, views(type_parameters@)),
    decreases field, 1nat,
{
    match &field.field_type {
        FieldDefType::TypeParam(name) => {
            let mut i: usize = 0;
            while i < type_parameters.len()
                invariant
                    0 <= i <= type_parameters.len(),
                    field.field_type == FieldDefType::TypeParam(*name),
                    forall|j: int| 0 <= j < i ==> type_parameters@[j]@ != name@,
                decreases type_parameters.len() - i,
            {
                if type_parameters[i] == *name {
                    assert(views(type_parameters@)[i as int] == name@);
                    assert(views(type_parameters@).contains(name@));
                    return true;
                }
                i += 1;
            }
            assert(!views(type_parameters@).contains(name@)) by {
                if views(type_parameters@).contains(name@) {
                    let k = choose|k: int|
                        0 <= k < views(type_parameters@).len() && views(type_parameters@)[k]
                            == name@;
                    assert(type_parameters@[k]@ == name@);
                }
            }
            false
        },
        FieldDefType::SiblingType(_, generics) => any_reaches(generics, type_parameters),
        FieldDefType::Mapping(key, value) => field_reaches_type_parameter(key, type_parameters)
            || field_reaches_type_parameter(value, type_parameters),
        FieldDefType::Tuple(elements) => any_reaches(elements, type_parameters),
        _ => false,
    }
}

// ----- The Kotlin type a field is written as. -----

/// The number the next tuple wrapper is given.
pub open spec fn next_index(counter: u32) -> u32 {
    if counter == u32::MAX {
        0
    } else {
        (counter + 1) as u32
    }
}

/// The Kotlin type of each of `fields`, rendered left to right.
pub open spec fn kt_list(fields: Seq<FieldDef>, names: KotlinNames, st: Tuples) -> (Seq<Seq<char>>, Tuples)
    decreases fields, 0nat, 0nat,
{
    if fields.len() == 0 {
        (Seq::empty(), st)
    } else {
        let (before, s1) = kt_list(fields.drop_last(), names, st);
        let (last, s2) = kt_type(fields.last(), names, s1);
        (before.push(last), s2)
    }
}

/// The Kotlin type before its array levels and optionality.
pub open spec fn kt_scalar(field: FieldDef, names: KotlinNames, st: Tuples) -> (Seq<char>, Tuples)
    decreases field, 0nat, 0nat,
{
    match field.field_type {
        FieldDefType::Unknown => ("JsonElement"@, st),
        FieldDefType::TypeParam(name) => (name@, st),
        FieldDefType::Tuple(elements) => kt_tuple(elements@, names, st),
        FieldDefType::SiblingType(name, generics) => if generics@.len() == 0 {
            (kotlin_class_name(names, name@), st)
        } else {
            let (arguments, s1) = kt_list(generics@, names, st);
            (kotlin_class_name(names, name@) + "<"@ + join(arguments, ", "@) + ">"@, s1)
        },
        FieldDefType::Mapping(key, value) => {
            let (k, s1) = kt_type(*key, names, st);
            let (v, s2) = kt_type(*value, names, s1);
            ("Map<"@ + k + ", "@ + v + ">"@, s2)
        },
        FieldDefType::Boolean => ("Boolean"@, st),
        FieldDefType::Char => ("String"@, st),
        FieldDefType::String => ("String"@, st),
        FieldDefType::StringLiteral(_) => ("String"@, st),
        FieldDefType::BooleanLiteral(_) => ("Boolean"@, st),
        FieldDefType::NumberLiteral(_) => ("Double"@, st),
        FieldDefType::U8 => ("UByte"@, st),
        FieldDefType::U16 => ("UShort"@, st),
        FieldDefType::U32 => ("UInt"@, st),
        FieldDefType::U64 => ("Long"@, st),
        FieldDefType::Usize => ("Long"@, st),
        FieldDefType::I8 => ("Byte"@, st),
        FieldDefType::I16 => ("Short"@, st),
        FieldDefType::I32 => ("Int"@, st),
        FieldDefType::I64 => ("Long"@, st),
        FieldDefType::Isize => ("Long"@, st),
        FieldDefType::F32 => ("Float"@, st),
        FieldDefType::F64 => ("Double"@, st),
        FieldDefType::ObjectId => ("ObjectId"@, st),
        FieldDefType::DateTime => if field.as_number {
            ("Long"@, st)
        } else {
            ("String"@, st)
        },
        _ => ("String"@, st),
    }
}

/// The Kotlin type inside the innermost `level` array levels.
pub open spec fn kt_at(field: FieldDef, level: nat, names: KotlinNames, st: Tuples) -> (Seq<char>, Tuples)
    decreases field, 1nat, level,
{
    if level == 0 {
        kt_scalar(field, names, st)
    } else {
        let (wrapped, s1) = kt_at(field, (level - 1) as nat, names, st);
        let item = if nullable_at(field, level - 1) {
            wrapped + "?"@
        } else {
            wrapped
        };
        ("List<"@ + item + ">"@, s1)
    }
}

/// The Kotlin type a field is written as: every array level, and `?` where it may be missing.
pub open spec fn kt_type(field: FieldDef, names: KotlinNames, st: Tuples) -> (Seq<char>, Tuples)
    decreases field, 2nat, 0nat,
{
    let (base, s1) = kt_at(field, field.array_depth as nat, names, st);
    if field.optional {
        (base + "?"@, s1)
    } else {
        (base, s1)
    }
}

/// One constructor parameter of a tuple wrapper.
pub open spec fn slot_param_text(slot: nat, ty: Seq<char>) -> Seq<char> {
    "val slot"@ + decimal(slot) + ": "@ + ty
}

/// One element written by a tuple wrapper's serializer.
pub open spec fn slot_encode_text(slot: nat, serializer: Seq<char>) -> Seq<char> {
    "add(output.json.encodeToJsonElement("@ + serializer + ", value.slot"@ + decimal(slot) + "))"@
}

/// One element read by a tuple wrapper's serializer.
pub open spec fn slot_decode_text(slot: nat, serializer: Seq<char>) -> Seq<char> {
    "input.json.decodeFromJsonElement("@ + serializer + ", array["@ + decimal(slot) + "])"@
}

/// A tuple wrapper's own declaration: the `data class` and the `KSerializer` that reads and
/// writes it as a JSON array.
pub open spec fn wrapper_class_text(wrapper: Seq<char>, params: Seq<char>, encodes: Seq<char>, decodes: Seq<
    char,
>) -> Seq<char> {
    "@Serializable(with = "@ + wrapper + "Serializer::class) data class "@ + wrapper + "("@ + params
        + ") object "@ + wrapper + "Serializer : KSerializer<"@ + wrapper
        + "> { override val descriptor: SerialDescriptor = buildClassSerialDescriptor(\""@ + wrapper
        + "\"); override fun serialize(encoder: Encoder, value: "@ + wrapper
        + ") { val output = encoder as JsonEncoder; output.encodeJsonElement(buildJsonArray { "@
        + encodes + " }) }; override fun deserialize(decoder: Decoder): "@ + wrapper
        + " { val input = decoder as JsonDecoder; val array = input.decodeJsonElement().jsonArray; return "@
        + wrapper + "("@ + decodes + ") } }"@
}

/// The wrapper a tuple-shaped type is written as: the counter advanced first, the elements'
/// types and serializers rendered, then the wrapper's declaration queued.
pub open spec fn kt_tuple(elements: Seq<FieldDef>, names: KotlinNames, st: Tuples) -> (Seq<char>, Tuples)
    decreases elements, 1nat, 0nat,
{
    let index = next_index(st.0);
    let wrapper = "KotlinTuple"@ + decimal(index as nat);
    let (types, s1) = kt_list(elements, names, (index, st.1));
    let (encoders, s2) = kt_ser_list(elements, Seq::empty(), names, s1);
    let (decoders, s3) = kt_ser_list(elements, Seq::empty(), names, s2);
    let params = join(Seq::new(types.len(), |i: int| slot_text(0, i as nat, types[i])), ", "@);
    let encodes = join(
        Seq::new(encoders.len(), |i: int| slot_text(1, i as nat, encoders[i])),
        "; "@,
    );
    let decodes = join(
        Seq::new(decoders.len(), |i: int| slot_text(2, i as nat, decoders[i])),
        ", "@,
    );
    (wrapper, (s3.0, s3.1.push(wrapper_class_text(wrapper, params, encodes, decodes))))
}

/// `scalar` wrapped in one `ListSerializer(…)` per array level, a level's element `.nullable`
/// where it may be `null`.
pub open spec fn ser_levels(scalar: Seq<char>, field: FieldDef, level: nat) -> Seq<char>
    decreases level,
{
    if level == 0 {
        scalar
    } else {
        let inner = ser_levels(scalar, field, (level - 1) as nat);
        let item = if nullable_at(field, level - 1) {
            inner + ".nullable"@
        } else {
            inner
        };
        "ListSerializer("@ + item + ")"@
    }
}

/// A reference to `field`'s own `KSerializer`: the reified `serializer<T>()` for a field reaching
/// none of `type_parameters`, composed from the parameters' own serializers for one that does.
pub open spec fn kt_ser(field: FieldDef, type_parameters: Seq<Seq<char>>, names: KotlinNames, st: Tuples) -> (
    Seq<char>,
    Tuples,
)
    decreases field, 5nat, 0nat,
{
    if !reaches_parameter(field, type_parameters) {
        let (ty, s1) = kt_type(field, names, st);
        ("serializer<"@ + ty + ">()"@, s1)
    } else {
        let (scalar, s1) = match field.field_type {
            FieldDefType::TypeParam(name) => (serializer_param_name(name@), st),
            FieldDefType::SiblingType(name, generics) => {
                let (arguments, s) = kt_ser_list(generics@, type_parameters, names, st);
                (kotlin_class_name(names, name@) + ".serializer("@ + join(arguments, ", "@) + ")"@, s)
            },
            FieldDefType::Mapping(key, value) => {
                let (k, sk) = kt_ser(*key, type_parameters, names, st);
                let (v, sv) = kt_ser(*value, type_parameters, names, sk);
                ("MapSerializer("@ + k + ", "@ + v + ")"@, sv)
            },
            FieldDefType::Tuple(_) => {
                let (ty, s) = kt_scalar(field, names, st);
                ("serializer<"@ + ty + ">()"@, s)
            },
            _ => {
                let (ty, s) = kt_type(field, names, st);
                ("serializer<"@ + ty + ">()"@, s)
            },
        };
        let wrapped = ser_levels(scalar, field, field.array_depth as nat);
        if field.optional {
            (wrapped + ".nullable"@, s1)
        } else {
            (wrapped, s1)
        }
    }
}

/// The serializer of each of `fields`, rendered left to right.
pub open spec fn kt_ser_list(fields: Seq<FieldDef>, type_parameters: Seq<Seq<char>>, names: KotlinNames, st: Tuples) -> (
    Seq<Seq<char>>,
    Tuples,
)
    decreases fields, 0nat, 0nat,
{
    if fields.len() == 0 {
        (Seq::empty(), st)
    } else {
        let (before, s1) = kt_ser_list(fields.drop_last(), type_parameters, names, st);
        let (last, s2) = kt_ser(fields.last(), type_parameters, names, s1);
        (before.push(last), s2)
    }
}

/// Renders each of `fields` as its Kotlin type, left to right.
pub(crate) fn kotlin_typenames(fields: &Vec<FieldDef>, names: &KotlinNames, tuples: &mut TupleWrappers) -> (rendered:
    Vec<String>)
    ensures
        (views(rendered@), tuples_of(*final(tuples))) == kt_list(fields@, *names, tuples_of(*old(tuples))),
    decreases fields@, 0nat, 0nat,
{
    let ghost start = tuples_of(*tuples);
    let mut rendered: Vec<String> = Vec::new();
    let mut i: usize = 0;
    while i < fields.len()
        invariant
            0 <= i <= fields.len(),
            (views(rendered@), tuples_of(*tuples)) == kt_list(fields@.take(i as int), *names, start),
        decreases fields.len() - i,
    {
        assert(decreases_to!(fields@ => fields@[i as int]));
        assert(fields@.take(i + 1).drop_last() =~= fields@.take(i as int));
        let one = kotlin_typename(&fields[i], names, tuples);
        let ghost before = views(rendered@);
        rendered.push(one);
        assert(views(rendered@) =~= before.push(one@));
        i += 1;
    }
    assert(fields@.take(fields.len() as int) =~= fields@);
    rendered
}

/// One slot's text, of the given kind: a parameter, an encode or a decode.
pub open spec fn slot_text(kind: u8, slot: nat, part: Seq<char>) -> Seq<char> {
    if kind == 0 {
        slot_param_text(slot, part)
    } else if kind == 1 {
        slot_encode_text(slot, part)
    } else {
        slot_decode_text(slot, part)
    }
}

/// `parts[i]` numbered by its slot: `render(slot, part)` for each.
pub(crate) fn slotted(parts: &Vec<String>, kind: u8) -> (rendered: Vec<String>)
    requires
        kind < 3,
    ensures
        views(rendered@) == Seq::new(parts@.len(), |i: int| slot_text(kind, i as nat, parts@[i]@)),
{
    let mut rendered: Vec<String> = Vec::new();
    let mut i: usize = 0;
    while i < parts.len()
        invariant
            0 <= i <= parts.len(),
            kind < 3,
            views(rendered@) == Seq::new(i as nat, |j: int| slot_text(kind, j as nat, parts@[j]@)),
        decreases parts.len() - i,
    {
        let slot = decimal_text(i as u64);
        let part = parts[i].as_str();
        let one = if kind == 0 {
            let mut t = String::from_str("val slot");
            t.append(slot.as_str());
            t.append(": ");
            t.append(part);
            t
        } else if kind == 1 {
            let mut t = String::from_str("add(output.json.encodeToJsonElement(");
            t.append(part);
            t.append(", value.slot");
            t.append(slot.as_str());
            t.append("))");
            t
        } else {
            let mut t = String::from_str("input.json.decodeFromJsonElement(");
            t.append(part);
            t.append(", array[");
            t.append(slot.as_str());
            t.append("])");
            t
        };
        assert(one@ == slot_text(kind, i as nat, parts@[i as int]@));
        let ghost before = views(rendered@);
        rendered.push(one);
        assert(views(rendered@) =~= before.push(one@));
        assert(views(rendered@) =~= Seq::new(
            (i + 1) as nat,
            |j: int| slot_text(kind, j as nat, parts@[j]@),
        ));
        i += 1;
    }
    rendered
}

/// The Kotlin type name for a tuple-shaped field: queues a wrapper `data class` plus the
/// `KSerializer` that reads and writes it as a JSON array, numbered from the counter so no two
/// collide.
fn tuple_wrapper_typename(elements: &Vec<FieldDef>, names: &KotlinNames, tuples: &mut TupleWrappers) -> (wrapper:
    String)
    ensures
        (wrapper@, tuples_of(*final(tuples))) == kt_tuple(elements@, *names, tuples_of(*old(tuples))),
    decreases elements@, 1nat, 0nat,
{
    let ghost start = tuples_of(*tuples);
    let index = tuples.counter.wrapping_add(1);
    assert(index == next_index(start.0));
    tuples.counter = index;
    assert(tuples_of(*tuples) == (index, start.1));
    let mut wrapper = String::from_str("KotlinTuple");
    wrapper.append(decimal_text(index as u64).as_str());
    let types = kotlin_typenames(elements, names, tuples);
    let ghost s1 = tuples_of(*tuples);
    assert((views(types@), s1) == kt_list(elements@, *names, (index, start.1)));
    let no_parameters: Vec<String> = Vec::new();
    assert(views(no_parameters@) =~= Seq::<Seq<char>>::empty());
    let encoders = kotlin_serializers(elements, &no_parameters, names, tuples);
    let ghost s2 = tuples_of(*tuples);
    assert((views(encoders@), s2) == kt_ser_list(elements@, Seq::empty(), *names, s1));
    let decoders = kotlin_serializers(elements, &no_parameters, names, tuples);
    let ghost s3 = tuples_of(*tuples);
    assert((views(decoders@), s3) == kt_ser_list(elements@, Seq::empty(), *names, s2));
    let params = join_all(&slotted(&types, 0), ", ");
    let encodes = join_all(&slotted(&encoders, 1), "; ");
    let decodes = join_all(&slotted(&decoders, 2), ", ");
    let ghost p = views(types@);
    assert(Seq::new(types@.len(), |i: int| slot_text(0, i as nat, types@[i]@)) =~= Seq::new(
        p.len(),
        |i: int| slot_text(0, i as nat, p[i]),
    ));
    let ghost e = views(encoders@);
    assert(Seq::new(encoders@.len(), |i: int| slot_text(1, i as nat, encoders@[i]@)) =~= Seq::new(
        e.len(),
        |i: int| slot_text(1, i as nat, e[i]),
    ));
    let ghost d = views(decoders@);
    assert(Seq::new(decoders@.len(), |i: int| slot_text(2, i as nat, decoders@[i]@)) =~= Seq::new(
        d.len(),
        |i: int| slot_text(2, i as nat, d[i]),
    ));
    let w = wrapper.as_str();
    let mut class_text = String::from_str("@Serializable(with = ");
    class_text.append(w);
    class_text.append("Serializer::class) data class ");
    class_text.append(w);
    class_text.append("(");
    class_text.append(params.as_str());
    class_text.append(") object ");
    class_text.append(w);
    class_text.append("Serializer : KSerializer<");
    class_text.append(w);
    class_text.append(
        "> { override val descriptor: SerialDescriptor = buildClassSerialDescriptor(\"",
    );
    class_text.append(w);
    class_text.append("\"); override fun serialize(encoder: Encoder, value: ");
    class_text.append(w);
    class_text.append(
        ") { val output = encoder as JsonEncoder; output.encodeJsonElement(buildJsonArray { ",
    );
    class_text.append(encodes.as_str());
    class_text.append(" }) }; override fun deserialize(decoder: Decoder): ");
    class_text.append(w);
    class_text.append(
        " { val input = decoder as JsonDecoder; val array = input.decodeJsonElement().jsonArray; return ",
    );
    class_text.append(w);
    class_text.append("(");
    class_text.append(decodes.as_str());
    class_text.append(") } }");
    assert(wrapper@ == "KotlinTuple"@ + decimal(index as nat));
    assert(class_text@ == wrapper_class_text(wrapper@, params@, encodes@, decodes@));
    let ghost queued = views(tuples.aux@);
    assert(queued == s3.1);
    tuples.aux.push(class_text);
    assert(views(tuples.aux@) =~= queued.push(class_text@));
    assert(tuples_of(*tuples) == (s3.0, s3.1.push(class_text@)));
    wrapper
}

pub(crate) fn kotlin_scalar(field: &FieldDef, names: &KotlinNames, tuples: &mut TupleWrappers) -> (text: String)
    ensures
        (text@, tuples_of(*final(tuples))) == kt_scalar(*field, *names, tuples_of(*old(tuples))),
    decreases field, 0nat, 0nat,
{
    match &field.field_type {
        FieldDefType::Unknown => String::from_str("JsonElement"),
        FieldDefType::TypeParam(name) => name.clone(),
        FieldDefType::Tuple(elements) => tuple_wrapper_typename(elements, names, tuples),
        FieldDefType::SiblingType(name, generics) => {
            let mut text = class_name(names, name);
            if generics.len() != 0 {
                let arguments = kotlin_typenames(generics, names, tuples);
                text.append("<");
                text.append(join_all(&arguments, ", ").as_str());
                text.append(">");
            }
            text
        },
        FieldDefType::Mapping(key, value) => {
            let k = kotlin_typename(key, names, tuples);
            let v = kotlin_typename(value, names, tuples);
            let mut text = String::from_str("Map<");
            text.append(k.as_str());
            text.append(", ");
            text.append(v.as_str());
            text.append(">");
            text
        },
        FieldDefType::Boolean => String::from_str("Boolean"),
        FieldDefType::Char => String::from_str("String"),
        FieldDefType::String => String::from_str("String"),
        FieldDefType::StringLiteral(_) => String::from_str("String"),
        FieldDefType::BooleanLiteral(_) => String::from_str("Boolean"),
        FieldDefType::NumberLiteral(_) => String::from_str("Double"),
        FieldDefType::U8 => String::from_str("UByte"),
        FieldDefType::U16 => String::from_str("UShort"),
        FieldDefType::U32 => String::from_str("UInt"),
        FieldDefType::U64 => String::from_str("Long"),
        FieldDefType::Usize => String::from_str("Long"),
        FieldDefType::I8 => String::from_str("Byte"),
        FieldDefType::I16 => String::from_str("Short"),
        FieldDefType::I32 => String::from_str("Int"),
        FieldDefType::I64 => String::from_str("Long"),
        FieldDefType::Isize => String::from_str("Long"),
        FieldDefType::F32 => String::from_str("Float"),
        FieldDefType::F64 => String::from_str("Double"),
        FieldDefType::ObjectId => String::from_str("ObjectId"),
        FieldDefType::DateTime => if field.as_number {
            String::from_str("Long")
        } else {
            String::from_str("String")
        },
        _ => String::from_str("String"),
    }
}

/// The Kotlin type before the outer `?`: the scalar, then one `List<…>` per array level, an inner
/// level written `?` where it may be `null`.
pub fn kotlin_base(field: &FieldDef, names: &KotlinNames, tuples: &mut TupleWrappers) -> (text: String)
    ensures
        (text@, tuples_of(*final(tuples))) == kt_at(
            *field,
            field.array_depth as nat,
            *names,
            tuples_of(*old(tuples)),
        ),
    decreases field, 1nat, field.array_depth,
{
    let ghost start = tuples_of(*tuples);
    let mut text = kotlin_scalar(field, names, tuples);
    let mut level: u8 = 0;
    while level < field.array_depth
        invariant
            0 <= level <= field.array_depth,
            (text@, tuples_of(*tuples)) == kt_at(*field, level as nat, *names, start),
        decreases field.array_depth - level,
    {
        if is_nullable_at(field, level) {
            text.append("?");
        }
        let mut wrapped = String::from_str("List<");
        wrapped.append(text.as_str());
        wrapped.append(">");
        text = wrapped;
        level += 1;
    }
    text
}

/// The Kotlin type `field` renders as: [`kotlin_base`] plus the `?` a field that may be missing
/// or `null` carries.
pub fn kotlin_typename(field: &FieldDef, names: &KotlinNames, tuples: &mut TupleWrappers) -> (text:
    String)
    ensures
        (text@, tuples_of(*final(tuples))) == kt_type(*field, *names, tuples_of(*old(tuples))),
    decreases field, 2nat, 0nat,
{
    let mut text = kotlin_base(field, names, tuples);
    if field.optional {
        text.append("?");
    }
    text
}

/// Renders each of `fields`' serializers, left to right.
pub(crate) fn kotlin_serializers(
    fields: &Vec<FieldDef>,
    type_parameters: &Vec<String>,
    names: &KotlinNames,
    tuples: &mut TupleWrappers,
) -> (rendered: Vec<String>)
    ensures
        (views(rendered@), tuples_of(*final(tuples))) == kt_ser_list(
            fields@,
            views(type_parameters@),
            *names,
            tuples_of(*old(tuples)),
        ),
    decreases fields@, 0nat, 0nat,
{
    let ghost start = tuples_of(*tuples);
    let mut rendered: Vec<String> = Vec::new();
    let mut i: usize = 0;
    while i < fields.len()
        invariant
            0 <= i <= fields.len(),
            (views(rendered@), tuples_of(*tuples)) == kt_ser_list(
                fields@.take(i as int),
                views(type_parameters@),
                *names,
                start,
            ),
        decreases fields.len() - i,
    {
        assert(decreases_to!(fields@ => fields@[i as int]));
        assert(fields@.take(i + 1).drop_last() =~= fields@.take(i as int));
        let one = kotlin_serializer_expr(&fields[i], type_parameters, names, tuples);
        let ghost before = views(rendered@);
        rendered.push(one);
        assert(views(rendered@) =~= before.push(one@));
        i += 1;
    }
    assert(fields@.take(fields.len() as int) =~= fields@);
    rendered
}

/// A reference to `field`'s own `KSerializer`. A field reaching none of `type_parameters`
/// resolves through the reified `serializer<T>()`; one that does composes `ListSerializer`,
/// `MapSerializer` and `.nullable` instead, since a parameter is never reifiable.
pub fn kotlin_serializer_expr(
    field: &FieldDef,
    type_parameters: &Vec<String>,
    names: &KotlinNames,
    tuples: &mut TupleWrappers,
) -> (text: String)
    ensures
        (text@, tuples_of(*final(tuples))) == kt_ser(
            *field,
            views(type_parameters@),
            *names,
            tuples_of(*old(tuples)),
        ),
    decreases field, 5nat, 0nat,
{
    if !field_reaches_type_parameter(field, type_parameters) {
        let mut text = String::from_str("serializer<");
        text.append(kotlin_typename(field, names, tuples).as_str());
        text.append(">()");
        return text;
    }
    let scalar = match &field.field_type {
        FieldDefType::TypeParam(name) => kotlin_serializer_param_name(name.as_str()),
        FieldDefType::SiblingType(name, generics) => {
            let arguments = kotlin_serializers(generics, type_parameters, names, tuples);
            let mut text = class_name(names, name);
            text.append(".serializer(");
            text.append(join_all(&arguments, ", ").as_str());
            text.append(")");
            text
        },
        FieldDefType::Mapping(key, value) => {
            let k = kotlin_serializer_expr(key, type_parameters, names, tuples);
            let v = kotlin_serializer_expr(value, type_parameters, names, tuples);
            let mut text = String::from_str("MapSerializer(");
            text.append(k.as_str());
            text.append(", ");
            text.append(v.as_str());
            text.append(")");
            text
        },
        FieldDefType::Tuple(_) => {
            let mut text = String::from_str("serializer<");
            text.append(kotlin_scalar(field, names, tuples).as_str());
            text.append(">()");
            text
        },
        _ => {
            let mut text = String::from_str("serializer<");
            text.append(kotlin_typename(field, names, tuples).as_str());
            text.append(">()");
            text
        },
    };
    let ghost scalar_text = scalar@;
    let mut wrapped = scalar;
    let mut level: u8 = 0;
    while level < field.array_depth
        invariant
            0 <= level <= field.array_depth,
            wrapped@ == ser_levels(scalar_text, *field, level as nat),
        decreases field.array_depth - level,
    {
        if is_nullable_at(field, level) {
            wrapped.append(".nullable");
        }
        let mut next = String::from_str("ListSerializer(");
        next.append(wrapped.as_str());
        next.append(")");
        wrapped = next;
        level += 1;
    }
    if field.optional {
        wrapped.append(".nullable");
    }
    wrapped
}

/// The `KSerializer` of a variant's own subclass: the reified `serializer<Sub>()` for an item
/// with no type parameters, the subclass's companion `Sub.serializer(…)` fed each parameter's
/// serializer for a generic one.
pub open spec fn subclass_serializer_text(subclass_name: Seq<char>, type_parameters: Seq<Seq<char>>) -> Seq<
    char,
> {
    if type_parameters.len() == 0 {
        "serializer<"@ + subclass_name + ">()"@
    } else {
        subclass_name + ".serializer("@ + join(
            type_parameters.map_values(|p: Seq<char>| serializer_param_name(p)),
            ", "@,
        ) + ")"@
    }
}

/// Each parameter's serializer property name, in order.
fn serializer_param_names(type_parameters: &Vec<String>) -> (names: Vec<String>)
    ensures
        views(names@) == views(type_parameters@).map_values(|p: Seq<char>| serializer_param_name(p)),
{
    let ghost all = views(type_parameters@);
    let mut names: Vec<String> = Vec::new();
    let mut i: usize = 0;
    while i < type_parameters.len()
        invariant
            0 <= i <= type_parameters.len(),
            all == views(type_parameters@),
            views(names@) == all.take(i as int).map_values(|p: Seq<char>| serializer_param_name(p)),
        decreases type_parameters.len() - i,
    {
        let one = kotlin_serializer_param_name(type_parameters[i].as_str());
        let ghost before = views(names@);
        names.push(one);
        assert(views(names@) =~= before.push(one@));
        assert(all.take(i + 1) =~= all.take(i as int).push(all[i as int]));
        assert(all.take(i + 1).map_values(|p: Seq<char>| serializer_param_name(p)) =~= all.take(
            i as int,
        ).map_values(|p: Seq<char>| serializer_param_name(p)).push(serializer_param_name(all[i as int])));
        i += 1;
    }
    assert(all.take(type_parameters.len() as int) =~= all);
    names
}

pub fn kotlin_subclass_serializer_expr(subclass_name: &str, type_parameters: &Vec<String>) -> (text:
    String)
    ensures
        text@ == subclass_serializer_text(subclass_name@, views(type_parameters@)),
{
    if type_parameters.len() == 0 {
        let mut text = String::from_str("serializer<");
        text.append(subclass_name);
        text.append(">()");
        text
    } else {
        let mut text = subclass_name.to_owned();
        text.append(".serializer(");
        text.append(join_all(&serializer_param_names(type_parameters), ", ").as_str());
        text.append(")");
        text
    }
}

/// The head of an item's own `KSerializer`: an `object` for an item with no type parameters, a
/// `class` bound to `Any` for each parameter and taking each parameter's serializer for a generic
/// one.
pub open spec fn serializer_declaration_text(export_name: Seq<char>, type_parameters: Seq<Seq<char>>) -> Seq<
    char,
> {
    if type_parameters.len() == 0 {
        "object "@ + export_name + "Serializer"@
    } else {
        "class "@ + export_name + "Serializer<"@ + join(
            type_parameters.map_values(|p: Seq<char>| p + ": Any"@),
            ", "@,
        ) + ">("@ + join(
            type_parameters.map_values(
                |p: Seq<char>| "private val "@ + serializer_param_name(p) + ": KSerializer<"@ + p + ">"@,
            ),
            ", "@,
        ) + ")"@
    }
}

pub fn serializer_declaration(export_name: &str, type_parameters: &Vec<String>) -> (text: String)
    ensures
        text@ == serializer_declaration_text(export_name@, views(type_parameters@)),
{
    if type_parameters.len() == 0 {
        let mut text = String::from_str("object ");
        text.append(export_name);
        text.append("Serializer");
        return text;
    }
    let ghost all = views(type_parameters@);
    let mut bounds: Vec<String> = Vec::new();
    let mut ctor_params: Vec<String> = Vec::new();
    let mut i: usize = 0;
    while i < type_parameters.len()
        invariant
            0 <= i <= type_parameters.len(),
            all == views(type_parameters@),
            views(bounds@) == all.take(i as int).map_values(|p: Seq<char>| p + ": Any"@),
            views(ctor_params@) == all.take(i as int).map_values(
                |p: Seq<char>| "private val "@ + serializer_param_name(p) + ": KSerializer<"@ + p + ">"@,
            ),
        decreases type_parameters.len() - i,
    {
        let parameter = type_parameters[i].as_str();
        let mut bound = parameter.to_owned();
        bound.append(": Any");
        let mut ctor_param = String::from_str("private val ");
        ctor_param.append(kotlin_serializer_param_name(parameter).as_str());
        ctor_param.append(": KSerializer<");
        ctor_param.append(parameter);
        ctor_param.append(">");
        let ghost (b1, b2) = (views(bounds@), views(ctor_params@));
        bounds.push(bound);
        ctor_params.push(ctor_param);
        assert(views(bounds@) =~= b1.push(bound@));
        assert(views(ctor_params@) =~= b2.push(ctor_param@));
        assert(all.take(i + 1) =~= all.take(i as int).push(all[i as int]));
        assert(all.take(i + 1).map_values(|p: Seq<char>| p + ": Any"@) =~= all.take(i as int).map_values(
            |p: Seq<char>| p + ": Any"@,
        ).push(all[i as int] + ": Any"@));
        assert(all.take(i + 1).map_values(
            |p: Seq<char>| "private val "@ + serializer_param_name(p) + ": KSerializer<"@ + p + ">"@,
        ) =~= all.take(i as int).map_values(
            |p: Seq<char>| "private val "@ + serializer_param_name(p) + ": KSerializer<"@ + p + ">"@,
        ).push(
            "private val "@ + serializer_param_name(all[i as int]) + ": KSerializer<"@ + all[i as int]
                + ">"@,
        ));
        i += 1;
    }
    assert(all.take(type_parameters.len() as int) =~= all);
    let mut text = String::from_str("class ");
    text.append(export_name);
    text.append("Serializer<");
    text.append(join_all(&bounds, ", ").as_str());
    text.append(">(");
    text.append(join_all(&ctor_params, ", ").as_str());
    text.append(")");
    text
}

/// The `typealias` a renamed item re-publishes under its own Rust ident; nothing for an item
/// already publishing under its own ident.
pub open spec fn ident_typealias_text(rust_ident: Seq<char>, export_name: Seq<char>, generic_params: Seq<
    char,
>) -> Seq<char> {
    if rust_ident == export_name {
        Seq::empty()
    } else {
        " typealias "@ + rust_ident + generic_params + " = "@ + export_name + generic_params + ";"@
    }
}

pub fn ident_typealias(rust_ident: &str, export_name: &str, generic_params: &str) -> (text: String)
    ensures
        text@ == ident_typealias_text(rust_ident@, export_name@, generic_params@),
{
    if rust_ident.to_owned() == export_name.to_owned() {
        String::new()
    } else {
        let mut text = String::from_str(" typealias ");
        text.append(rust_ident);
        text.append(generic_params);
        text.append(" = ");
        text.append(export_name);
        text.append(generic_params);
        text.append(";");
        text
    }
}

/// `<…>` around `parameters` joined by `, `, or nothing for none.
pub open spec fn angled_text(parameters: Seq<Seq<char>>) -> Seq<char> {
    if parameters.len() == 0 {
        Seq::empty()
    } else {
        "<"@ + join(parameters, ", "@) + ">"@
    }
}

fn angled(parameters: &Vec<String>) -> (text: String)
    ensures
        text@ == angled_text(views(parameters@)),
{
    if parameters.len() == 0 {
        String::new()
    } else {
        let mut text = String::from_str("<");
        text.append(join_all(parameters, ", ").as_str());
        text.append(">");
        text
    }
}

/// `<T, U>` for an item's type parameters, or nothing for none.
pub fn kotlin_generic_params(type_parameters: &Vec<String>) -> (text: String)
    ensures
        text@ == angled_text(views(type_parameters@)),
{
    angled(type_parameters)
}

/// `<out T, out U>`, the covariant parameters of a sealed base's own declaration.
pub fn kotlin_out_generic_params(type_parameters: &Vec<String>) -> (text: String)
    ensures
        text@ == angled_text(views(type_parameters@).map_values(|p: Seq<char>| "out "@ + p)),
{
    let ghost all = views(type_parameters@);
    let mut out: Vec<String> = Vec::new();
    let mut i: usize = 0;
    while i < type_parameters.len()
        invariant
            0 <= i <= type_parameters.len(),
            all == views(type_parameters@),
            views(out@) == all.take(i as int).map_values(|p: Seq<char>| "out "@ + p),
        decreases type_parameters.len() - i,
    {
        let mut one = String::from_str("out ");
        one.append(type_parameters[i].as_str());
        let ghost before = views(out@);
        out.push(one);
        assert(views(out@) =~= before.push(one@));
        assert(all.take(i + 1) =~= all.take(i as int).push(all[i as int]));
        assert(all.take(i + 1).map_values(|p: Seq<char>| "out "@ + p) =~= all.take(i as int).map_values(
            |p: Seq<char>| "out "@ + p,
        ).push("out "@ + all[i as int]));
        i += 1;
    }
    assert(all.take(type_parameters.len() as int) =~= all);
    angled(&out)
}

/// `<Nothing, Nothing>`, one `Nothing` per type parameter: the filling a unit variant's
/// `data object` implements the sealed base at.
pub fn kotlin_nothing_generic_args(type_parameters: &Vec<String>) -> (text: String)
    ensures
        text@ == angled_text(Seq::new(type_parameters@.len(), |i: int| "Nothing"@)),
{
    let mut nothing: Vec<String> = Vec::new();
    let mut i: usize = 0;
    while i < type_parameters.len()
        invariant
            0 <= i <= type_parameters.len(),
            views(nothing@) == Seq::new(i as nat, |j: int| "Nothing"@),
        decreases type_parameters.len() - i,
    {
        let one = String::from_str("Nothing");
        let ghost before = views(nothing@);
        nothing.push(one);
        assert(views(nothing@) =~= before.push(one@));
        assert(views(nothing@) =~= Seq::new((i + 1) as nat, |j: int| "Nothing"@));
        i += 1;
    }
    angled(&nothing)
}

/// One field as the Kotlin surface reads it: its type, whether it is flattened, its Rust name,
/// and its key on the wire.
pub struct KotlinField {
    pub field_def: FieldDef,
    pub flatten: bool,
    pub rust_name: String,
    pub wire_name: String,
}

/// One constructor property: `@SerialName("…")` only where the wire key differs from the Kotlin
/// property, then `val name: Type`, then `= null` for a field whose key may be absent.
pub open spec fn property_text(field: KotlinField, names: KotlinNames, st: Tuples) -> (Seq<char>, Tuples) {
    let property = camel_case(field.rust_name@);
    let annotation = if property == field.wire_name@ {
        Seq::empty()
    } else {
        "@SerialName(\""@ + field.wire_name@ + "\") "@
    };
    let (ty, s1) = kt_type(field.field_def, names, st);
    let declared = annotation + "val "@ + property + ": "@ + ty;
    if field.field_def.optional && !field.field_def.nullable {
        (declared + " = null"@, s1)
    } else {
        (declared, s1)
    }
}

pub fn property_declaration(field: &KotlinField, names: &KotlinNames, tuples: &mut TupleWrappers) -> (text:
    String)
    ensures
        (text@, tuples_of(*final(tuples))) == property_text(*field, *names, tuples_of(*old(tuples))),
{
    let property = kotlin_property_name(field.rust_name.as_str());
    let mut text = if property == field.wire_name {
        String::new()
    } else {
        let mut annotation = String::from_str("@SerialName(\"");
        annotation.append(field.wire_name.as_str());
        annotation.append("\") ");
        annotation
    };
    let ty = kotlin_typename(&field.field_def, names, tuples);
    text.append("val ");
    text.append(property.as_str());
    text.append(": ");
    text.append(ty.as_str());
    if field.field_def.optional && !field.field_def.nullable {
        text.append(" = null");
    }
    text
}

/// Each field's constructor property, rendered left to right.
pub open spec fn properties_text(fields: Seq<KotlinField>, names: KotlinNames, st: Tuples) -> (
    Seq<Seq<char>>,
    Tuples,
)
    decreases fields.len(),
{
    if fields.len() == 0 {
        (Seq::empty(), st)
    } else {
        let (before, s1) = properties_text(fields.drop_last(), names, st);
        let (last, s2) = property_text(fields.last(), names, s1);
        (before.push(last), s2)
    }
}

/// The constructor parameter list a set of fields earns, joined by `, `.
pub fn data_class_params(fields: &Vec<KotlinField>, names: &KotlinNames, tuples: &mut TupleWrappers) -> (text:
    String)
    ensures
        ({
            let (rendered, after) = properties_text(fields@, *names, tuples_of(*old(tuples)));
            text@ == join(rendered, ", "@) && tuples_of(*final(tuples)) == after
        }),
{
    let ghost start = tuples_of(*tuples);
    let mut rendered: Vec<String> = Vec::new();
    let mut i: usize = 0;
    while i < fields.len()
        invariant
            0 <= i <= fields.len(),
            (views(rendered@), tuples_of(*tuples)) == properties_text(fields@.take(i as int), *names, start),
        decreases fields.len() - i,
    {
        assert(fields@.take(i + 1).drop_last() =~= fields@.take(i as int));
        let one = property_declaration(&fields[i], names, tuples);
        let ghost before = views(rendered@);
        rendered.push(one);
        assert(views(rendered@) =~= before.push(one@));
        i += 1;
    }
    assert(fields@.take(fields.len() as int) =~= fields@);
    join_all(&rendered, ", ")
}

/// The Kotlin type of `field` with every level's nullability set aside: the scalar inside
/// `level` plain `List<…>` levels.
pub open spec fn kt_at_plain(field: FieldDef, level: nat, names: KotlinNames, st: Tuples) -> (Seq<char>, Tuples)
    decreases level,
{
    if level == 0 {
        kt_scalar(field, names, st)
    } else {
        let (wrapped, s1) = kt_at_plain(field, (level - 1) as nat, names, st);
        ("List<"@ + wrapped + ">"@, s1)
    }
}

/// `scalar` inside `level` plain `ListSerializer(…)` levels.
pub open spec fn ser_levels_plain(scalar: Seq<char>, level: nat) -> Seq<char>
    decreases level,
{
    if level == 0 {
        scalar
    } else {
        "ListSerializer("@ + ser_levels_plain(scalar, (level - 1) as nat) + ")"@
    }
}

/// The serializer of `field`'s own value with its outer optionality and every level's
/// nullability set aside: what a flattened field's keys are read and written through.
pub open spec fn kt_ser_plain(field: FieldDef, type_parameters: Seq<Seq<char>>, names: KotlinNames, st: Tuples) -> (
    Seq<char>,
    Tuples,
) {
    if !reaches_parameter(field, type_parameters) {
        let (ty, s1) = kt_at_plain(field, field.array_depth as nat, names, st);
        ("serializer<"@ + ty + ">()"@, s1)
    } else {
        let (scalar, s1) = match field.field_type {
            FieldDefType::TypeParam(name) => (serializer_param_name(name@), st),
            FieldDefType::SiblingType(name, generics) => {
                let (arguments, s) = kt_ser_list(generics@, type_parameters, names, st);
                (kotlin_class_name(names, name@) + ".serializer("@ + join(arguments, ", "@) + ")"@, s)
            },
            FieldDefType::Mapping(key, value) => {
                let (k, sk) = kt_ser(*key, type_parameters, names, st);
                let (v, sv) = kt_ser(*value, type_parameters, names, sk);
                ("MapSerializer("@ + k + ", "@ + v + ")"@, sv)
            },
            FieldDefType::Tuple(_) => {
                let (ty, s) = kt_scalar(field, names, st);
                ("serializer<"@ + ty + ">()"@, s)
            },
            _ => {
                let (ty, s) = kt_at_plain(field, field.array_depth as nat, names, st);
                ("serializer<"@ + ty + ">()"@, s)
            },
        };
        (ser_levels_plain(scalar, field.array_depth as nat), s1)
    }
}

fn kotlin_base_plain(field: &FieldDef, names: &KotlinNames, tuples: &mut TupleWrappers) -> (text: String)
    ensures
        (text@, tuples_of(*final(tuples))) == kt_at_plain(
            *field,
            field.array_depth as nat,
            *names,
            tuples_of(*old(tuples)),
        ),
{
    let ghost start = tuples_of(*tuples);
    let mut text = kotlin_scalar(field, names, tuples);
    let mut level: u8 = 0;
    while level < field.array_depth
        invariant
            0 <= level <= field.array_depth,
            (text@, tuples_of(*tuples)) == kt_at_plain(*field, level as nat, *names, start),
        decreases field.array_depth - level,
    {
        let mut wrapped = String::from_str("List<");
        wrapped.append(text.as_str());
        wrapped.append(">");
        text = wrapped;
        level += 1;
    }
    text
}

pub fn kotlin_serializer_plain(
    field: &FieldDef,
    type_parameters: &Vec<String>,
    names: &KotlinNames,
    tuples: &mut TupleWrappers,
) -> (text: String)
    ensures
        (text@, tuples_of(*final(tuples))) == kt_ser_plain(
            *field,
            views(type_parameters@),
            *names,
            tuples_of(*old(tuples)),
        ),
{
    if !field_reaches_type_parameter(field, type_parameters) {
        let mut text = String::from_str("serializer<");
        text.append(kotlin_base_plain(field, names, tuples).as_str());
        text.append(">()");
        return text;
    }
    let scalar = match &field.field_type {
        FieldDefType::TypeParam(name) => kotlin_serializer_param_name(name.as_str()),
        FieldDefType::SiblingType(name, generics) => {
            let arguments = kotlin_serializers(generics, type_parameters, names, tuples);
            let mut text = class_name(names, name);
            text.append(".serializer(");
            text.append(join_all(&arguments, ", ").as_str());
            text.append(")");
            text
        },
        FieldDefType::Mapping(key, value) => {
            let k = kotlin_serializer_expr(key, type_parameters, names, tuples);
            let v = kotlin_serializer_expr(value, type_parameters, names, tuples);
            let mut text = String::from_str("MapSerializer(");
            text.append(k.as_str());
            text.append(", ");
            text.append(v.as_str());
            text.append(")");
            text
        },
        FieldDefType::Tuple(_) => {
            let mut text = String::from_str("serializer<");
            text.append(kotlin_scalar(field, names, tuples).as_str());
            text.append(">()");
            text
        },
        _ => {
            let mut text = String::from_str("serializer<");
            text.append(kotlin_base_plain(field, names, tuples).as_str());
            text.append(">()");
            text
        },
    };
    let ghost scalar_text = scalar@;
    let mut wrapped = scalar;
    let mut level: u8 = 0;
    while level < field.array_depth
        invariant
            0 <= level <= field.array_depth,
            wrapped@ == ser_levels_plain(scalar_text, level as nat),
        decreases field.array_depth - level,
    {
        let mut next = String::from_str("ListSerializer(");
        next.append(wrapped.as_str());
        next.append(")");
        wrapped = next;
        level += 1;
    }
    wrapped
}

} // verus!
