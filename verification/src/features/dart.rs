//! Dart type and JSON-codec generation: the Dart type a field is written as, and the expressions
//! that decode it from, and encode it into, the dynamically-typed JSON `jsonDecode` answers with.
//!
//! A reference to a sibling item resolves through the Dart name that item registered, since a
//! renamed item publishes under its new name; an item not registered yet is written under its own
//! Rust ident, which a renamed item re-publishes as a `typedef` too.
use crate::field_type::{decimal, decimal_text, is_nullable_at, nullable_at, FieldDef, FieldDefType, MapKeyWire};
use crate::rename_rule::{camel_case_of_variant, lower_first};
use crate::text::{join, join_all, views};
pub mod items;
pub mod tagged;

use vstd::prelude::*;

verus! {

/// The Dart class or enum name each Rust ident publishes under, in the order they registered.
pub struct DartNames {
    pub entries: Vec<(String, String)>,
}

/// The name most recently registered for `rust_ident`.
pub open spec fn dart_lookup(entries: Seq<(String, String)>, rust_ident: Seq<char>) -> Option<
    Seq<char>,
>
    decreases entries.len(),
{
    if entries.len() == 0 {
        None
    } else if entries.last().0@ == rust_ident {
        Some(entries.last().1@)
    } else {
        dart_lookup(entries.drop_last(), rust_ident)
    }
}

/// The name a reference to `rust_ident` is written under: the registered one, else the ident.
pub open spec fn class_name_of(names: DartNames, rust_ident: Seq<char>) -> Seq<char> {
    match dart_lookup(names.entries@, rust_ident) {
        Some(name) => name,
        None => rust_ident,
    }
}

impl DartNames {
    pub fn new() -> (names: DartNames)
        ensures
            names.entries@.len() == 0,
    {
        DartNames { entries: Vec::new() }
    }
}

/// The Dart name registered for `rust_ident`, or `None` for a type not registered yet.
pub fn lookup_dart_name(names: &DartNames, rust_ident: &str) -> (found: Option<String>)
    ensures
        match found {
            Some(name) => dart_lookup(names.entries@, rust_ident@) == Some(name@),
            None => dart_lookup(names.entries@, rust_ident@) is None,
        },
{
    let owned = rust_ident.to_owned();
    let mut i: usize = names.entries.len();
    assert(names.entries@.take(i as int) =~= names.entries@);
    while i > 0
        invariant
            0 <= i <= names.entries.len(),
            owned@ == rust_ident@,
            dart_lookup(names.entries@.take(i as int), rust_ident@) == dart_lookup(
                names.entries@,
                rust_ident@,
            ),
        decreases i,
    {
        assert(names.entries@.take(i as int).drop_last() =~= names.entries@.take(i - 1));
        if names.entries[i - 1].0 == owned {
            return Some(names.entries[i - 1].1.clone());
        }
        i -= 1;
    }
    None
}

/// Records the Dart name `rust_ident` publishes under, for a later reference to read back.
pub fn register_dart_name(names: &mut DartNames, rust_ident: &str, export_name: &str)
    ensures
        final(names).entries@.len() == old(names).entries@.len() + 1,
        final(names).entries@.drop_last() == old(names).entries@,
        final(names).entries@.last().0@ == rust_ident@,
        final(names).entries@.last().1@ == export_name@,
{
    names.entries.push((rust_ident.to_owned(), export_name.to_owned()));
    assert(names.entries@.drop_last() =~= old(names).entries@);
}

pub(crate) fn class_name(names: &DartNames, rust_ident: &String) -> (class: String)
    ensures
        class@ == class_name_of(*names, rust_ident@),
{
    match lookup_dart_name(names, rust_ident.as_str()) {
        Some(name) => name,
        None => rust_ident.clone(),
    }
}

/// The converter argument a generic `fromJson` takes for type parameter `T`: `tFromJson`.
pub open spec fn from_json_argument(parameter: Seq<char>) -> Seq<char> {
    lower_first(parameter) + "FromJson"@
}

/// The converter argument a generic `toJson` takes for type parameter `T`: `tToJson`.
pub open spec fn to_json_argument(parameter: Seq<char>) -> Seq<char> {
    lower_first(parameter) + "ToJson"@
}

pub fn dart_from_json_argument(parameter: &str) -> (argument: String)
    ensures
        argument@ == from_json_argument(parameter@),
{
    let mut argument = camel_case_of_variant(parameter);
    argument.append("FromJson");
    argument
}

pub fn dart_to_json_argument(parameter: &str) -> (argument: String)
    ensures
        argument@ == to_json_argument(parameter@),
{
    let mut argument = camel_case_of_variant(parameter);
    argument.append("ToJson");
    argument
}

// ----- The Dart type a field is written as. -----

/// The Dart type of each of `fields`.
pub open spec fn dart_list(fields: Seq<FieldDef>, names: DartNames) -> Seq<Seq<char>>
    decreases fields,
{
    if fields.len() == 0 {
        Seq::empty()
    } else {
        dart_list(fields.drop_last(), names).push(dart_type(fields.last(), names))
    }
}

/// A tuple's Dart record: its elements joined, with the trailing comma a one-element record
/// needs.
pub open spec fn record_text(joined: Seq<char>, count: nat) -> Seq<char> {
    if count == 1 {
        "("@ + joined + ",)"@
    } else {
        "("@ + joined + ")"@
    }
}

/// The Dart type before its array levels and optionality.
pub open spec fn dart_scalar(field: FieldDef, names: DartNames) -> Seq<char>
    decreases field, 0nat,
{
    match field.field_type {
        FieldDefType::Unknown => "dynamic"@,
        FieldDefType::TypeParam(name) => name@,
        FieldDefType::Tuple(elements) => record_text(
            join(dart_list(elements@, names), ", "@),
            elements@.len(),
        ),
        FieldDefType::SiblingType(name, generics) => if generics@.len() == 0 {
            class_name_of(names, name@)
        } else {
            class_name_of(names, name@) + "<"@ + join(dart_list(generics@, names), ", "@) + ">"@
        },
        FieldDefType::Mapping(key, value) => "Map<"@ + dart_map_key_type(*key, names) + ", "@
            + dart_type(*value, names) + ">"@,
        FieldDefType::Boolean => "bool"@,
        FieldDefType::Char => "String"@,
        FieldDefType::String => "String"@,
        FieldDefType::StringLiteral(_) => "String"@,
        FieldDefType::BooleanLiteral(_) => "bool"@,
        FieldDefType::NumberLiteral(_) => "double"@,
        FieldDefType::F32 => "double"@,
        FieldDefType::F64 => "double"@,
        FieldDefType::ObjectId => "ObjectId"@,
        FieldDefType::NaiveDate => "String"@,
        FieldDefType::NaiveTime => "String"@,
        FieldDefType::NaiveDateTime => "String"@,
        FieldDefType::DateTime => if field.as_number {
            "int"@
        } else {
            "DateTime"@
        },
        _ => "int"@,
    }
}

/// The Dart type inside the innermost `level` array levels: one `List<…>` per level, a level's
/// element written `?` where it may be `null`.
pub open spec fn dart_at(field: FieldDef, level: nat, names: DartNames) -> Seq<char>
    decreases field, 1nat, level,
{
    if level == 0 {
        dart_scalar(field, names)
    } else {
        let wrapped = dart_at(field, (level - 1) as nat, names);
        let item = if nullable_at(field, level - 1) {
            wrapped + "?"@
        } else {
            wrapped
        };
        "List<"@ + item + ">"@
    }
}

/// The Dart type before the outer `?`.
pub open spec fn dart_base_text(field: FieldDef, names: DartNames) -> Seq<char>
    decreases field, 2nat,
{
    dart_at(field, field.array_depth as nat, names)
}

/// The Dart type a field is written as: its base, plus `?` where it may be missing.
pub open spec fn dart_type(field: FieldDef, names: DartNames) -> Seq<char>
    decreases field, 3nat,
{
    if field.optional {
        dart_base_text(field, names) + "?"@
    } else {
        dart_base_text(field, names)
    }
}

/// The key type a `Map<…>` is written with: the key's own Dart type, since a Dart `Map` puts no
/// restriction on its keys; the string form lives only in the codec.
pub open spec fn dart_map_key_type(key: FieldDef, names: DartNames) -> Seq<char>
    decreases key, 4nat,
{
    if key.parameter_shape {
        "String"@
    } else {
        match key.map_key_wire {
            MapKeyWire::Boolean => "bool"@,
            MapKeyWire::Timestamp => "DateTime"@,
            _ => dart_base_text(key, names),
        }
    }
}

/// Renders each of `fields` as its Dart type.
fn dart_typenames(fields: &Vec<FieldDef>, names: &DartNames) -> (rendered: Vec<String>)
    ensures
        views(rendered@) == dart_list(fields@, *names),
    decreases fields@,
{
    let mut rendered: Vec<String> = Vec::new();
    let mut i: usize = 0;
    while i < fields.len()
        invariant
            0 <= i <= fields.len(),
            views(rendered@) == dart_list(fields@.take(i as int), *names),
        decreases fields.len() - i,
    {
        assert(decreases_to!(fields@ => fields@[i as int]));
        let one = dart_typename(&fields[i], names);
        let ghost before = views(rendered@);
        rendered.push(one);
        assert(views(rendered@) =~= before.push(one@));
        assert(fields@.take(i + 1).drop_last() =~= fields@.take(i as int));
        i += 1;
    }
    assert(fields@.take(fields.len() as int) =~= fields@);
    rendered
}

fn record(joined: String, count: usize) -> (text: String)
    ensures
        text@ == record_text(joined@, count as nat),
{
    let mut text = String::from_str("(");
    text.append(joined.as_str());
    if count == 1 {
        text.append(",)");
    } else {
        text.append(")");
    }
    text
}

fn dart_scalar_of(field: &FieldDef, names: &DartNames) -> (text: String)
    ensures
        text@ == dart_scalar(*field, *names),
    decreases field, 0nat,
{
    match &field.field_type {
        FieldDefType::Unknown => String::from_str("dynamic"),
        FieldDefType::TypeParam(name) => name.clone(),
        FieldDefType::Tuple(elements) => {
            let rendered = dart_typenames(elements, names);
            record(join_all(&rendered, ", "), elements.len())
        },
        FieldDefType::SiblingType(name, generics) => {
            let mut text = class_name(names, name);
            if generics.len() != 0 {
                let rendered = dart_typenames(generics, names);
                text.append("<");
                text.append(join_all(&rendered, ", ").as_str());
                text.append(">");
            }
            text
        },
        FieldDefType::Mapping(key, value) => {
            let mut text = String::from_str("Map<");
            text.append(dart_map_key_typename(key, names).as_str());
            text.append(", ");
            text.append(dart_typename(value, names).as_str());
            text.append(">");
            text
        },
        FieldDefType::Boolean => String::from_str("bool"),
        FieldDefType::Char => String::from_str("String"),
        FieldDefType::String => String::from_str("String"),
        FieldDefType::StringLiteral(_) => String::from_str("String"),
        FieldDefType::BooleanLiteral(_) => String::from_str("bool"),
        FieldDefType::NumberLiteral(_) => String::from_str("double"),
        FieldDefType::F32 => String::from_str("double"),
        FieldDefType::F64 => String::from_str("double"),
        FieldDefType::ObjectId => String::from_str("ObjectId"),
        FieldDefType::NaiveDate => String::from_str("String"),
        FieldDefType::NaiveTime => String::from_str("String"),
        FieldDefType::NaiveDateTime => String::from_str("String"),
        FieldDefType::DateTime => if field.as_number {
            String::from_str("int")
        } else {
            String::from_str("DateTime")
        },
        _ => String::from_str("int"),
    }
}

/// The Dart type before the outer `?` a missing-or-`null` field carries: the scalar, then one
/// `List<…>` per array level, an inner level written `?` where it may be `null`.
pub fn dart_base(field: &FieldDef, names: &DartNames) -> (text: String)
    ensures
        text@ == dart_base_text(*field, *names),
    decreases field, 2nat,
{
    let mut text = dart_scalar_of(field, names);
    let mut level: u8 = 0;
    while level < field.array_depth
        invariant
            0 <= level <= field.array_depth,
            text@ == dart_at(*field, level as nat, *names),
        decreases field.array_depth - level,
    {
        if is_nullable_at(field, level) {
            text.append("?");
        }
        let mut wrapped = String::from_str("List<");
        wrapped.append(text.as_str());
        wrapped.append(">");
        text = wrapped;
        level += 1;
    }
    text
}

/// The Dart type `field` renders as: its base, plus `?` where it may be missing or `null`.
pub fn dart_typename(field: &FieldDef, names: &DartNames) -> (text: String)
    ensures
        text@ == dart_type(*field, *names),
    decreases field, 3nat,
{
    let mut text = dart_base(field, names);
    if field.optional {
        text.append("?");
    }
    text
}

/// The key type a `Map<…>` is written with.
pub fn dart_map_key_typename(key: &FieldDef, names: &DartNames) -> (text: String)
    ensures
        text@ == dart_map_key_type(*key, *names),
    decreases key, 4nat,
{
    if key.parameter_shape {
        return String::from_str("String");
    }
    match key.map_key_wire {
        MapKeyWire::Boolean => String::from_str("bool"),
        MapKeyWire::Timestamp => String::from_str("DateTime"),
        _ => dart_base(key, names),
    }
}

// ----- Decoding a field out of JSON. -----

/// Whether a type is one of the integer types.
pub open spec fn is_integer(ty: FieldDefType) -> bool {
    ty is U8 || ty is U16 || ty is U32 || ty is U64 || ty is I8 || ty is I16 || ty is I32 || ty is I64
        || ty is Usize || ty is Isize
}

/// The mapper `.map(…)` is handed for one array level: `inner` decoded or encoded from `e`, with
/// `null` passed through where the level's element may be `null`.
pub open spec fn mapper_text(inner: Seq<char>, nullable: bool) -> Seq<char> {
    if nullable {
        "(e) => (e == null ? null : "@ + inner + ")"@
    } else {
        "(e) => "@ + inner
    }
}

/// The decode of each tuple element, read from its own index of the JSON array `expr` names.
pub open spec fn decode_elements(elements: Seq<FieldDef>, expr: Seq<char>, names: DartNames) -> Seq<
    Seq<char>,
>
    decreases elements, 0nat, 0nat,
{
    if elements.len() == 0 {
        Seq::empty()
    } else {
        decode_elements(elements.drop_last(), expr, names).push(
            dart_decode(
                elements.last(),
                "("@ + expr + " as List<dynamic>)["@ + decimal((elements.len() - 1) as nat)
                    + "]"@,
                names,
            ),
        )
    }
}

/// The converters a generic `fromJson` is handed, one per type argument.
pub open spec fn decode_converters(arguments: Seq<FieldDef>, names: DartNames) -> Seq<Seq<char>>
    decreases arguments, 0nat, 0nat,
{
    if arguments.len() == 0 {
        Seq::empty()
    } else {
        decode_converters(arguments.drop_last(), names).push(
            "(e) => "@ + dart_decode(arguments.last(), "e"@, names),
        )
    }
}

/// The decode of `field` at array level `level`, from the JSON `expr` names: the levels peeled
/// off one by one, then the scalar read at level zero.
pub open spec fn dart_decode_at_text(field: FieldDef, level: nat, expr: Seq<char>, names: DartNames) -> Seq<
    char,
>
    decreases field, 1nat, level,
{
    if level > 0 {
        let inner = dart_decode_at_text(field, (level - 1) as nat, "e"@, names);
        "("@ + expr + " as List<dynamic>).map("@ + mapper_text(inner, nullable_at(field, level - 1))
            + ").toList()"@
    } else {
        match field.field_type {
            FieldDefType::Unknown => expr,
            FieldDefType::TypeParam(name) => from_json_argument(name@) + "("@ + expr + ")"@,
            FieldDefType::Tuple(elements) => record_text(
                join(decode_elements(elements@, expr, names), ", "@),
                elements@.len(),
            ),
            FieldDefType::SiblingType(name, generics) => if generics@.len() == 0 {
                class_name_of(names, name@) + ".fromJson("@ + expr + ")"@
            } else {
                class_name_of(names, name@) + ".fromJson("@ + expr + ", "@ + join(
                    decode_converters(generics@, names),
                    ", "@,
                ) + ")"@
            },
            FieldDefType::Mapping(key, value) => "Map<"@ + dart_map_key_type(*key, names) + ", "@
                + dart_type(*value, names) + ">.fromEntries(("@ + expr
                + " as Map<String, dynamic>).entries.map((e) => MapEntry("@ + dart_map_key_decode_text(
                *key,
                "e.key"@,
                names,
            ) + ", "@ + dart_decode(*value, "e.value"@, names) + ")))"@,
            FieldDefType::Boolean => expr + " as bool"@,
            FieldDefType::Char => expr + " as String"@,
            FieldDefType::String => expr + " as String"@,
            FieldDefType::StringLiteral(_) => expr + " as String"@,
            FieldDefType::BooleanLiteral(_) => expr + " as bool"@,
            FieldDefType::NumberLiteral(_) => "("@ + expr + " as num).toDouble()"@,
            FieldDefType::F32 => "("@ + expr + " as num).toDouble()"@,
            FieldDefType::F64 => "("@ + expr + " as num).toDouble()"@,
            FieldDefType::ObjectId => "ObjectId.fromJson("@ + expr + ")"@,
            FieldDefType::NaiveDate => expr + " as String"@,
            FieldDefType::NaiveTime => expr + " as String"@,
            FieldDefType::NaiveDateTime => expr + " as String"@,
            FieldDefType::DateTime => if field.as_number {
                expr + " as int"@
            } else {
                "DateTime.parse("@ + expr + " as String)"@
            },
            _ => expr + " as int"@,
        }
    }
}

/// The decode of the whole field, outer optionality included.
pub open spec fn dart_decode(field: FieldDef, expr: Seq<char>, names: DartNames) -> Seq<char>
    decreases field, 2nat, 0nat,
{
    let unwrapped = dart_decode_at_text(field, field.array_depth as nat, expr, names);
    if field.optional {
        "("@ + expr + " == null ? null : "@ + unwrapped + ")"@
    } else {
        unwrapped
    }
}

/// The read of one map key back from the string JSON writes it as.
pub open spec fn dart_map_key_decode_text(key: FieldDef, expr: Seq<char>, names: DartNames) -> Seq<
    char,
>
    decreases key, 3nat, 0nat,
{
    if key.parameter_shape {
        expr
    } else {
        match key.map_key_wire {
            MapKeyWire::Boolean => "("@ + expr + " == \"true\")"@,
            MapKeyWire::Timestamp => "DateTime.parse("@ + expr + ")"@,
            MapKeyWire::Enumerated => dart_base_text(key, names) + ".fromJson("@ + expr + ")"@,
            MapKeyWire::Named => if is_integer(key.field_type) {
                "int.parse("@ + expr + ")"@
            } else if key.field_type is F32 || key.field_type is F64 {
                "double.parse("@ + expr + ")"@
            } else {
                dart_decode(key, expr, names)
            },
        }
    }
}

fn decode_elements_of(elements: &Vec<FieldDef>, expr: &str, names: &DartNames) -> (rendered: Vec<
    String,
>)
    ensures
        views(rendered@) == decode_elements(elements@, expr@, *names),
    decreases elements@, 0nat, 0nat,
{
    let mut rendered: Vec<String> = Vec::new();
    let mut i: usize = 0;
    while i < elements.len()
        invariant
            0 <= i <= elements.len(),
            views(rendered@) == decode_elements(elements@.take(i as int), expr@, *names),
        decreases elements.len() - i,
    {
        assert(decreases_to!(elements@ => elements@[i as int]));
        let mut source = String::from_str("(");
        source.append(expr);
        source.append(" as List<dynamic>)[");
        source.append(decimal_text(i as u64).as_str());
        source.append("]");
        let one = dart_decode_expr(&elements[i], source.as_str(), names);
        let ghost before = views(rendered@);
        rendered.push(one);
        assert(views(rendered@) =~= before.push(one@));
        assert(elements@.take(i + 1).drop_last() =~= elements@.take(i as int));
        i += 1;
    }
    assert(elements@.take(elements.len() as int) =~= elements@);
    rendered
}

fn decode_converters_of(arguments: &Vec<FieldDef>, names: &DartNames) -> (rendered: Vec<String>)
    ensures
        views(rendered@) == decode_converters(arguments@, *names),
    decreases arguments@, 0nat, 0nat,
{
    let mut rendered: Vec<String> = Vec::new();
    let mut i: usize = 0;
    while i < arguments.len()
        invariant
            0 <= i <= arguments.len(),
            views(rendered@) == decode_converters(arguments@.take(i as int), *names),
        decreases arguments.len() - i,
    {
        assert(decreases_to!(arguments@ => arguments@[i as int]));
        let mut one = String::from_str("(e) => ");
        one.append(dart_decode_expr(&arguments[i], "e", names).as_str());
        let ghost before = views(rendered@);
        rendered.push(one);
        assert(views(rendered@) =~= before.push(one@));
        assert(arguments@.take(i + 1).drop_last() =~= arguments@.take(i as int));
        i += 1;
    }
    assert(arguments@.take(arguments.len() as int) =~= arguments@);
    rendered
}

fn mapper(inner: String, nullable: bool) -> (text: String)
    ensures
        text@ == mapper_text(inner@, nullable),
{
    if nullable {
        let mut text = String::from_str("(e) => (e == null ? null : ");
        text.append(inner.as_str());
        text.append(")");
        text
    } else {
        let mut text = String::from_str("(e) => ");
        text.append(inner.as_str());
        text
    }
}

/// `expr` followed by a fixed suffix.
fn suffixed(expr: &str, suffix: &str) -> (text: String)
    ensures
        text@ == expr@ + suffix@,
{
    let mut text = expr.to_owned();
    text.append(suffix);
    text
}

/// `expr` between a fixed prefix and a fixed suffix.
fn wrapped(prefix: &str, expr: &str, suffix: &str) -> (text: String)
    ensures
        text@ == prefix@ + expr@ + suffix@,
{
    let mut text = String::from_str(prefix);
    text.append(expr);
    text.append(suffix);
    text
}

/// [`dart_decode_expr`] before the outer optionality: peels `level` `List<dynamic>` levels off
/// `expr`, then dispatches on the field's type at level zero.
pub fn dart_decode_at(field: &FieldDef, level: u8, expr: &str, names: &DartNames) -> (text: String)
    ensures
        text@ == dart_decode_at_text(*field, level as nat, expr@, *names),
    decreases field, 1nat, level,
{
    if level > 0 {
        let inner_level = level - 1;
        let inner = dart_decode_at(field, inner_level, "e", names);
        let mapped = mapper(inner, is_nullable_at(field, inner_level));
        let mut text = wrapped("(", expr, " as List<dynamic>).map(");
        text.append(mapped.as_str());
        text.append(").toList()");
        return text;
    }
    match &field.field_type {
        FieldDefType::Unknown => expr.to_owned(),
        FieldDefType::TypeParam(name) => {
            let mut text = dart_from_json_argument(name.as_str());
            text.append("(");
            text.append(expr);
            text.append(")");
            text
        },
        FieldDefType::Tuple(elements) => {
            let rendered = decode_elements_of(elements, expr, names);
            record(join_all(&rendered, ", "), elements.len())
        },
        FieldDefType::SiblingType(name, generics) => {
            let mut text = class_name(names, name);
            text.append(".fromJson(");
            text.append(expr);
            if generics.len() != 0 {
                let converters = decode_converters_of(generics, names);
                text.append(", ");
                text.append(join_all(&converters, ", ").as_str());
            }
            text.append(")");
            text
        },
        FieldDefType::Mapping(key, value) => {
            let mut text = String::from_str("Map<");
            text.append(dart_map_key_typename(key, names).as_str());
            text.append(", ");
            text.append(dart_typename(value, names).as_str());
            text.append(">.fromEntries((");
            text.append(expr);
            text.append(" as Map<String, dynamic>).entries.map((e) => MapEntry(");
            text.append(dart_map_key_decode(key, "e.key", names).as_str());
            text.append(", ");
            text.append(dart_decode_expr(value, "e.value", names).as_str());
            text.append(")))");
            text
        },
        FieldDefType::Boolean => suffixed(expr, " as bool"),
        FieldDefType::Char => suffixed(expr, " as String"),
        FieldDefType::String => suffixed(expr, " as String"),
        FieldDefType::StringLiteral(_) => suffixed(expr, " as String"),
        FieldDefType::BooleanLiteral(_) => suffixed(expr, " as bool"),
        FieldDefType::NumberLiteral(_) => wrapped("(", expr, " as num).toDouble()"),
        FieldDefType::F32 => wrapped("(", expr, " as num).toDouble()"),
        FieldDefType::F64 => wrapped("(", expr, " as num).toDouble()"),
        FieldDefType::ObjectId => wrapped("ObjectId.fromJson(", expr, ")"),
        FieldDefType::NaiveDate => suffixed(expr, " as String"),
        FieldDefType::NaiveTime => suffixed(expr, " as String"),
        FieldDefType::NaiveDateTime => suffixed(expr, " as String"),
        FieldDefType::DateTime => if field.as_number {
            suffixed(expr, " as int")
        } else {
            wrapped("DateTime.parse(", expr, " as String)")
        },
        _ => suffixed(expr, " as int"),
    }
}

/// The expression that decodes `field`'s value out of the raw JSON `expr` names — the whole
/// field, its outer optionality included.
pub fn dart_decode_expr(field: &FieldDef, expr: &str, names: &DartNames) -> (text: String)
    ensures
        text@ == dart_decode(*field, expr@, *names),
    decreases field, 2nat, 0nat,
{
    let unwrapped = dart_decode_at(field, field.array_depth, expr, names);
    if field.optional {
        let mut text = wrapped("(", expr, " == null ? null : ");
        text.append(unwrapped.as_str());
        text.append(")");
        text
    } else {
        unwrapped
    }
}

fn is_integer_type(ty: &FieldDefType) -> (integer: bool)
    ensures
        integer == is_integer(*ty),
{
    match ty {
        FieldDefType::U8 | FieldDefType::U16 | FieldDefType::U32 | FieldDefType::U64
        | FieldDefType::I8 | FieldDefType::I16 | FieldDefType::I32 | FieldDefType::I64
        | FieldDefType::Usize | FieldDefType::Isize => true,
        _ => false,
    }
}

/// The expression that reads one `Map` key back from the `String` JSON always writes it as.
pub fn dart_map_key_decode(key: &FieldDef, expr: &str, names: &DartNames) -> (text: String)
    ensures
        text@ == dart_map_key_decode_text(*key, expr@, *names),
    decreases key, 3nat, 0nat,
{
    if key.parameter_shape {
        return expr.to_owned();
    }
    match key.map_key_wire {
        MapKeyWire::Boolean => wrapped("(", expr, " == \"true\")"),
        MapKeyWire::Timestamp => wrapped("DateTime.parse(", expr, ")"),
        MapKeyWire::Enumerated => {
            let mut text = dart_base(key, names);
            text.append(".fromJson(");
            text.append(expr);
            text.append(")");
            text
        },
        MapKeyWire::Named => {
            if is_integer_type(&key.field_type) {
                wrapped("int.parse(", expr, ")")
            } else if matches!(key.field_type, FieldDefType::F32 | FieldDefType::F64) {
                wrapped("double.parse(", expr, ")")
            } else {
                dart_decode_expr(key, expr, names)
            }
        },
    }
}

// ----- Encoding a field into JSON. -----

/// The encode of each tuple element, read from its own positional field of the record.
pub open spec fn encode_elements(elements: Seq<FieldDef>, expr: Seq<char>, names: DartNames) -> Seq<
    Seq<char>,
>
    decreases elements, 0nat, 0nat,
{
    if elements.len() == 0 {
        Seq::empty()
    } else {
        encode_elements(elements.drop_last(), expr, names).push(
            dart_encode(
                elements.last(),
                "("@ + expr + ").$"@ + decimal(elements.len()),
                names,
            ),
        )
    }
}

/// The converters a generic `toJson` is handed, one per type argument.
pub open spec fn encode_converters(arguments: Seq<FieldDef>, names: DartNames) -> Seq<Seq<char>>
    decreases arguments, 0nat, 0nat,
{
    if arguments.len() == 0 {
        Seq::empty()
    } else {
        encode_converters(arguments.drop_last(), names).push(
            "(e) => "@ + dart_encode(arguments.last(), "e"@, names),
        )
    }
}

/// The encode of `field` at array level `level`: the counterpart of [`dart_decode_at_text`].
pub open spec fn dart_encode_at_text(field: FieldDef, level: nat, expr: Seq<char>, names: DartNames) -> Seq<
    char,
>
    decreases field, 1nat, level,
{
    if level > 0 {
        let inner = dart_encode_at_text(field, (level - 1) as nat, "e"@, names);
        expr + ".map("@ + mapper_text(inner, nullable_at(field, level - 1)) + ").toList()"@
    } else {
        match field.field_type {
            FieldDefType::Unknown => expr,
            FieldDefType::TypeParam(name) => to_json_argument(name@) + "("@ + expr + ")"@,
            FieldDefType::Tuple(elements) => "["@ + join(encode_elements(elements@, expr, names), ", "@)
                + "]"@,
            FieldDefType::SiblingType(_, generics) => if generics@.len() == 0 {
                "("@ + expr + ").toJson()"@
            } else {
                "("@ + expr + ").toJson("@ + join(encode_converters(generics@, names), ", "@) + ")"@
            },
            FieldDefType::Mapping(key, value) => "Map<String, dynamic>.fromEntries(("@ + expr
                + ").entries.map((e) => MapEntry("@ + dart_map_key_encode_text(*key, "e.key"@, names)
                + ", "@ + dart_encode(*value, "e.value"@, names) + ")))"@,
            FieldDefType::ObjectId => "("@ + expr + ").toJson()"@,
            FieldDefType::DateTime => if field.as_number {
                expr
            } else {
                "("@ + expr + ").toIso8601String()"@
            },
            _ => expr,
        }
    }
}

/// The encode of the whole field into a `jsonEncode`-safe value, outer optionality included.
pub open spec fn dart_encode(field: FieldDef, expr: Seq<char>, names: DartNames) -> Seq<char>
    decreases field, 2nat, 0nat,
{
    let unwrapped = dart_encode_at_text(field, field.array_depth as nat, expr, names);
    if field.optional {
        "("@ + expr + " == null ? null : "@ + unwrapped + ")"@
    } else {
        unwrapped
    }
}

/// The write of one map key as the string JSON carries it.
pub open spec fn dart_map_key_encode_text(key: FieldDef, expr: Seq<char>, names: DartNames) -> Seq<
    char,
>
    decreases key, 3nat, 0nat,
{
    if key.parameter_shape {
        expr
    } else {
        match key.map_key_wire {
            MapKeyWire::Boolean => "("@ + expr + " ? \"true\" : \"false\")"@,
            MapKeyWire::Timestamp => expr + ".toIso8601String()"@,
            MapKeyWire::Enumerated => "("@ + expr + ").toJson()"@,
            MapKeyWire::Named => if is_integer(key.field_type) || key.field_type is F32
                || key.field_type is F64 {
                "("@ + expr + ").toString()"@
            } else {
                "("@ + dart_encode(key, expr, names) + ") as String"@
            },
        }
    }
}

fn encode_elements_of(elements: &Vec<FieldDef>, expr: &str, names: &DartNames) -> (rendered: Vec<
    String,
>)
    ensures
        views(rendered@) == encode_elements(elements@, expr@, *names),
    decreases elements@, 0nat, 0nat,
{
    let mut rendered: Vec<String> = Vec::new();
    let mut i: usize = 0;
    while i < elements.len()
        invariant
            0 <= i <= elements.len(),
            views(rendered@) == encode_elements(elements@.take(i as int), expr@, *names),
        decreases elements.len() - i,
    {
        assert(decreases_to!(elements@ => elements@[i as int]));
        let mut source = wrapped("(", expr, ").$");
        source.append(decimal_text((i as u64) + 1).as_str());
        let one = dart_encode_expr(&elements[i], source.as_str(), names);
        let ghost before = views(rendered@);
        rendered.push(one);
        assert(views(rendered@) =~= before.push(one@));
        assert(elements@.take(i + 1).drop_last() =~= elements@.take(i as int));
        i += 1;
    }
    assert(elements@.take(elements.len() as int) =~= elements@);
    rendered
}

fn encode_converters_of(arguments: &Vec<FieldDef>, names: &DartNames) -> (rendered: Vec<String>)
    ensures
        views(rendered@) == encode_converters(arguments@, *names),
    decreases arguments@, 0nat, 0nat,
{
    let mut rendered: Vec<String> = Vec::new();
    let mut i: usize = 0;
    while i < arguments.len()
        invariant
            0 <= i <= arguments.len(),
            views(rendered@) == encode_converters(arguments@.take(i as int), *names),
        decreases arguments.len() - i,
    {
        assert(decreases_to!(arguments@ => arguments@[i as int]));
        let mut one = String::from_str("(e) => ");
        one.append(dart_encode_expr(&arguments[i], "e", names).as_str());
        let ghost before = views(rendered@);
        rendered.push(one);
        assert(views(rendered@) =~= before.push(one@));
        assert(arguments@.take(i + 1).drop_last() =~= arguments@.take(i as int));
        i += 1;
    }
    assert(arguments@.take(arguments.len() as int) =~= arguments@);
    rendered
}

/// [`dart_encode_expr`] before the outer optionality — the encode counterpart of
/// [`dart_decode_at`].
pub fn dart_encode_at(field: &FieldDef, level: u8, expr: &str, names: &DartNames) -> (text: String)
    ensures
        text@ == dart_encode_at_text(*field, level as nat, expr@, *names),
    decreases field, 1nat, level,
{
    if level > 0 {
        let inner_level = level - 1;
        let inner = dart_encode_at(field, inner_level, "e", names);
        let mapped = mapper(inner, is_nullable_at(field, inner_level));
        let mut text = suffixed(expr, ".map(");
        text.append(mapped.as_str());
        text.append(").toList()");
        return text;
    }
    match &field.field_type {
        FieldDefType::Unknown => expr.to_owned(),
        FieldDefType::TypeParam(name) => {
            let mut text = dart_to_json_argument(name.as_str());
            text.append("(");
            text.append(expr);
            text.append(")");
            text
        },
        FieldDefType::Tuple(elements) => {
            let rendered = encode_elements_of(elements, expr, names);
            let mut text = String::from_str("[");
            text.append(join_all(&rendered, ", ").as_str());
            text.append("]");
            text
        },
        FieldDefType::SiblingType(_, generics) => {
            if generics.len() == 0 {
                wrapped("(", expr, ").toJson()")
            } else {
                let converters = encode_converters_of(generics, names);
                let mut text = wrapped("(", expr, ").toJson(");
                text.append(join_all(&converters, ", ").as_str());
                text.append(")");
                text
            }
        },
        FieldDefType::Mapping(key, value) => {
            let mut text = wrapped(
                "Map<String, dynamic>.fromEntries((",
                expr,
                ").entries.map((e) => MapEntry(",
            );
            text.append(dart_map_key_encode(key, "e.key", names).as_str());
            text.append(", ");
            text.append(dart_encode_expr(value, "e.value", names).as_str());
            text.append(")))");
            text
        },
        FieldDefType::ObjectId => wrapped("(", expr, ").toJson()"),
        FieldDefType::DateTime => if field.as_number {
            expr.to_owned()
        } else {
            wrapped("(", expr, ").toIso8601String()")
        },
        _ => expr.to_owned(),
    }
}

/// The expression that encodes `field`'s Dart value `expr` into a `jsonEncode`-safe value — the
/// whole field, its outer optionality included.
pub fn dart_encode_expr(field: &FieldDef, expr: &str, names: &DartNames) -> (text: String)
    ensures
        text@ == dart_encode(*field, expr@, *names),
    decreases field, 2nat, 0nat,
{
    let unwrapped = dart_encode_at(field, field.array_depth, expr, names);
    if field.optional {
        let mut text = wrapped("(", expr, " == null ? null : ");
        text.append(unwrapped.as_str());
        text.append(")");
        text
    } else {
        unwrapped
    }
}

/// The expression that writes one `Map` key as the `String` JSON always carries it as.
pub fn dart_map_key_encode(key: &FieldDef, expr: &str, names: &DartNames) -> (text: String)
    ensures
        text@ == dart_map_key_encode_text(*key, expr@, *names),
    decreases key, 3nat, 0nat,
{
    if key.parameter_shape {
        return expr.to_owned();
    }
    match key.map_key_wire {
        MapKeyWire::Boolean => wrapped("(", expr, " ? \"true\" : \"false\")"),
        MapKeyWire::Timestamp => suffixed(expr, ".toIso8601String()"),
        MapKeyWire::Enumerated => wrapped("(", expr, ").toJson()"),
        MapKeyWire::Named => {
            if is_integer_type(&key.field_type) || matches!(
                key.field_type,
                FieldDefType::F32 | FieldDefType::F64
            ) {
                wrapped("(", expr, ").toString()")
            } else {
                let mut text = String::from_str("(");
                text.append(dart_encode_expr(key, expr, names).as_str());
                text.append(") as String");
                text
            }
        },
    }
}

// ----- Class bodies. -----

/// The generic converter parameters a `fromJson`/`toJson` pair threads through, one pair per type
/// parameter.
pub struct GenericCodec {
    /// `, tFromJson` for each parameter, forwarding the converters at a call site.
    pub from_json_args: String,
    /// `, T Function(dynamic) tFromJson` for each parameter, in a declaration.
    pub from_json_params: String,
    /// `dynamic Function(T) tToJson` for each parameter, joined by `, `.
    pub to_json_params: String,
}

pub open spec fn from_json_param_text(parameter: Seq<char>) -> Seq<char> {
    ", "@ + parameter + " Function(dynamic) "@ + from_json_argument(parameter)
}

pub open spec fn from_json_arg_text(parameter: Seq<char>) -> Seq<char> {
    ", "@ + from_json_argument(parameter)
}

pub open spec fn to_json_param_text(parameter: Seq<char>) -> Seq<char> {
    "dynamic Function("@ + parameter + ") "@ + to_json_argument(parameter)
}

/// The three texts a codec holds: the converter arguments, the converter parameters of a
/// `fromJson`, and those of a `toJson`.
pub open spec fn codec_view(codec: GenericCodec) -> (Seq<char>, Seq<char>, Seq<char>) {
    (codec.from_json_args@, codec.from_json_params@, codec.to_json_params@)
}

/// The codec texts for `parameters`, in the order [`codec_view`] gives them.
pub open spec fn codec_text(parameters: Seq<Seq<char>>) -> (Seq<char>, Seq<char>, Seq<char>) {
    (
        join(parameters.map_values(|p: Seq<char>| from_json_arg_text(p)), ""@),
        join(parameters.map_values(|p: Seq<char>| from_json_param_text(p)), ""@),
        join(parameters.map_values(|p: Seq<char>| to_json_param_text(p)), ", "@),
    )
}

pub fn generic_codec(parameters: &Vec<String>) -> (codec: GenericCodec)
    ensures
        codec_view(codec) == codec_text(views(parameters@)),
{
    let ghost all = views(parameters@);
    let mut params: Vec<String> = Vec::new();
    let mut args: Vec<String> = Vec::new();
    let mut to_params: Vec<String> = Vec::new();
    let mut i: usize = 0;
    while i < parameters.len()
        invariant
            0 <= i <= parameters.len(),
            all == views(parameters@),
            views(params@) == all.take(i as int).map_values(|p: Seq<char>| from_json_param_text(p)),
            views(args@) == all.take(i as int).map_values(|p: Seq<char>| from_json_arg_text(p)),
            views(to_params@) == all.take(i as int).map_values(
                |p: Seq<char>| to_json_param_text(p),
            ),
        decreases parameters.len() - i,
    {
        let parameter = parameters[i].as_str();
        let from = dart_from_json_argument(parameter);
        let mut param = String::from_str(", ");
        param.append(parameter);
        param.append(" Function(dynamic) ");
        param.append(from.as_str());
        let mut arg = String::from_str(", ");
        arg.append(from.as_str());
        let mut to_param = String::from_str("dynamic Function(");
        to_param.append(parameter);
        to_param.append(") ");
        to_param.append(dart_to_json_argument(parameter).as_str());
        let ghost (b1, b2, b3) = (views(params@), views(args@), views(to_params@));
        params.push(param);
        args.push(arg);
        to_params.push(to_param);
        assert(views(params@) =~= b1.push(params@.last()@));
        assert(views(args@) =~= b2.push(args@.last()@));
        assert(views(to_params@) =~= b3.push(to_params@.last()@));
        assert(all.take(i + 1) =~= all.take(i as int).push(all[i as int]));
        assert(all.take(i + 1).map_values(|p: Seq<char>| from_json_param_text(p)) =~= all.take(
            i as int,
        ).map_values(|p: Seq<char>| from_json_param_text(p)).push(from_json_param_text(all[i as int])));
        assert(all.take(i + 1).map_values(|p: Seq<char>| from_json_arg_text(p)) =~= all.take(
            i as int,
        ).map_values(|p: Seq<char>| from_json_arg_text(p)).push(from_json_arg_text(all[i as int])));
        assert(all.take(i + 1).map_values(|p: Seq<char>| to_json_param_text(p)) =~= all.take(
            i as int,
        ).map_values(|p: Seq<char>| to_json_param_text(p)).push(to_json_param_text(all[i as int])));
        i += 1;
    }
    assert(all.take(parameters.len() as int) =~= all);
    GenericCodec {
        from_json_args: join_all(&args, ""),
        from_json_params: join_all(&params, ""),
        to_json_params: join_all(&to_params, ", "),
    }
}

/// The `typedef {rust_ident}{generics} = {export_name}{generics};` a renamed item re-publishes
/// under its own Rust ident; nothing for an item already publishing under its own ident.
pub open spec fn ident_typedef_text(rust_ident: Seq<char>, export_name: Seq<char>, generic_params: Seq<
    char,
>) -> Seq<char> {
    if rust_ident == export_name {
        Seq::empty()
    } else {
        "\n\ntypedef "@ + rust_ident + generic_params + " = "@ + export_name + generic_params + ";"@
    }
}

pub fn ident_typedef(rust_ident: &str, export_name: &str, generic_params: &str) -> (text: String)
    ensures
        text@ == ident_typedef_text(rust_ident@, export_name@, generic_params@),
{
    if rust_ident.to_owned() == export_name.to_owned() {
        String::new()
    } else {
        let mut text = String::from_str("\n\ntypedef ");
        text.append(rust_ident);
        text.append(generic_params);
        text.append(" = ");
        text.append(export_name);
        text.append(generic_params);
        text.append(";");
        text
    }
}

/// One field this module has decided belongs on the wire: its Rust name (the Dart field's own
/// spelling), its wire name, whether the key always reaches the wire, whether it is a flattened
/// source, and its type.
pub struct DartField {
    pub field_def: FieldDef,
    pub flatten: bool,
    pub required: bool,
    pub rust_name: String,
    pub wire_name: String,
}

/// The pieces of a Dart class body built from a set of fields.
pub struct ClassBodyParts {
    pub ctor_args: String,
    pub ctor_params: String,
    pub field_decls: String,
    /// The `{ 'a': a, 'b': b }` map literal a plain `toJson()` returns.
    pub to_json_map: String,
}

pub open spec fn ctor_param_text(field: DartField) -> Seq<char> {
    if field.required {
        "required this."@ + field.rust_name@ + ","@
    } else {
        "this."@ + field.rust_name@ + ","@
    }
}

pub open spec fn field_decl_text(field: DartField, names: DartNames) -> Seq<char> {
    "final "@ + dart_type(field.field_def, names) + " "@ + field.rust_name@ + ";"@
}

pub open spec fn ctor_arg_text(field: DartField, names: DartNames) -> Seq<char> {
    let source = if field.flatten {
        "json"@
    } else {
        "json['"@ + field.wire_name@ + "']"@
    };
    field.rust_name@ + ": "@ + dart_decode(field.field_def, source, names) + ","@
}

pub open spec fn to_json_entry_text(field: DartField, names: DartNames) -> Seq<char> {
    let encode = dart_encode(field.field_def, field.rust_name@, names);
    if field.flatten {
        if field.field_def.optional {
            "if ("@ + field.rust_name@ + " != null) ...("@ + encode + " as Map<String, dynamic>),"@
        } else {
            "...("@ + encode + " as Map<String, dynamic>),"@
        }
    } else if field.required {
        "'"@ + field.wire_name@ + "': "@ + encode + ","@
    } else {
        "if ("@ + field.rust_name@ + " != null) '"@ + field.wire_name@ + "': "@ + encode + ","@
    }
}

/// The constructor, field declarations, and `fromJson`/`toJson` bodies for a set of fields;
/// `extra_to_json` entries are written into the `toJson` map ahead of the fields.
pub open spec fn parts_of(fields: Seq<DartField>, extra_to_json: Seq<Seq<char>>, names: DartNames) -> (
    Seq<char>,
    Seq<char>,
    Seq<char>,
    Seq<char>,
) {
    (
        join(fields.map_values(|f: DartField| ctor_arg_text(f, names)), ""@),
        join(fields.map_values(|f: DartField| ctor_param_text(f)), ""@),
        join(fields.map_values(|f: DartField| field_decl_text(f, names)), ""@),
        "{ "@ + join(extra_to_json, " "@) + join(
            fields.map_values(|f: DartField| to_json_entry_text(f, names)),
            ""@,
        ) + " }"@,
    )
}

fn ctor_param(field: &DartField) -> (text: String)
    ensures
        text@ == ctor_param_text(*field),
{
    let mut text = if field.required {
        String::from_str("required this.")
    } else {
        String::from_str("this.")
    };
    text.append(field.rust_name.as_str());
    text.append(",");
    text
}

fn field_decl(field: &DartField, names: &DartNames) -> (text: String)
    ensures
        text@ == field_decl_text(*field, *names),
{
    let mut text = String::from_str("final ");
    text.append(dart_typename(&field.field_def, names).as_str());
    text.append(" ");
    text.append(field.rust_name.as_str());
    text.append(";");
    text
}

fn ctor_arg(field: &DartField, names: &DartNames) -> (text: String)
    ensures
        text@ == ctor_arg_text(*field, *names),
{
    let source = if field.flatten {
        String::from_str("json")
    } else {
        wrapped("json['", field.wire_name.as_str(), "']")
    };
    let mut text = suffixed(field.rust_name.as_str(), ": ");
    text.append(dart_decode_expr(&field.field_def, source.as_str(), names).as_str());
    text.append(",");
    text
}

fn to_json_entry(field: &DartField, names: &DartNames) -> (text: String)
    ensures
        text@ == to_json_entry_text(*field, *names),
{
    let encode = dart_encode_expr(&field.field_def, field.rust_name.as_str(), names);
    if field.flatten {
        if field.field_def.optional {
            let mut text = wrapped("if (", field.rust_name.as_str(), " != null) ...(");
            text.append(encode.as_str());
            text.append(" as Map<String, dynamic>),");
            text
        } else {
            wrapped("...(", encode.as_str(), " as Map<String, dynamic>),")
        }
    } else if field.required {
        let mut text = wrapped("'", field.wire_name.as_str(), "': ");
        text.append(encode.as_str());
        text.append(",");
        text
    } else {
        let mut text = wrapped("if (", field.rust_name.as_str(), " != null) '");
        text.append(field.wire_name.as_str());
        text.append("': ");
        text.append(encode.as_str());
        text.append(",");
        text
    }
}

/// The constructor, field declarations, and `fromJson`/`toJson` bodies for a set of fields —
/// shared by a named-field struct and a struct-shaped enum variant.
pub fn class_body_parts(fields: &Vec<DartField>, extra_to_json: &Vec<String>, names: &DartNames) -> (parts:
    ClassBodyParts)
    ensures
        (parts.ctor_args@, parts.ctor_params@, parts.field_decls@, parts.to_json_map@) == parts_of(
            fields@,
            views(extra_to_json@),
            *names,
        ),
{
    let mut args: Vec<String> = Vec::new();
    let mut params: Vec<String> = Vec::new();
    let mut decls: Vec<String> = Vec::new();
    let mut entries: Vec<String> = Vec::new();
    let mut i: usize = 0;
    while i < fields.len()
        invariant
            0 <= i <= fields.len(),
            views(args@) == fields@.take(i as int).map_values(
                |f: DartField| ctor_arg_text(f, *names),
            ),
            views(params@) == fields@.take(i as int).map_values(|f: DartField| ctor_param_text(f)),
            views(decls@) == fields@.take(i as int).map_values(
                |f: DartField| field_decl_text(f, *names),
            ),
            views(entries@) == fields@.take(i as int).map_values(
                |f: DartField| to_json_entry_text(f, *names),
            ),
        decreases fields.len() - i,
    {
        let field = &fields[i];
        let ghost (b1, b2, b3, b4) = (views(args@), views(params@), views(decls@), views(entries@));
        args.push(ctor_arg(field, names));
        params.push(ctor_param(field));
        decls.push(field_decl(field, names));
        entries.push(to_json_entry(field, names));
        assert(views(args@) =~= b1.push(args@.last()@));
        assert(views(params@) =~= b2.push(params@.last()@));
        assert(views(decls@) =~= b3.push(decls@.last()@));
        assert(views(entries@) =~= b4.push(entries@.last()@));
        assert(fields@.take(i + 1) =~= fields@.take(i as int).push(fields@[i as int]));
        assert(fields@.take(i + 1).map_values(|f: DartField| ctor_arg_text(f, *names))
            =~= fields@.take(i as int).map_values(|f: DartField| ctor_arg_text(f, *names)).push(
            ctor_arg_text(fields@[i as int], *names),
        ));
        assert(fields@.take(i + 1).map_values(|f: DartField| ctor_param_text(f)) =~= fields@.take(
            i as int,
        ).map_values(|f: DartField| ctor_param_text(f)).push(ctor_param_text(fields@[i as int])));
        assert(fields@.take(i + 1).map_values(|f: DartField| field_decl_text(f, *names))
            =~= fields@.take(i as int).map_values(|f: DartField| field_decl_text(f, *names)).push(
            field_decl_text(fields@[i as int], *names),
        ));
        assert(fields@.take(i + 1).map_values(|f: DartField| to_json_entry_text(f, *names))
            =~= fields@.take(i as int).map_values(|f: DartField| to_json_entry_text(f, *names)).push(
            to_json_entry_text(fields@[i as int], *names),
        ));
        i += 1;
    }
    assert(fields@.take(fields.len() as int) =~= fields@);
    let mut to_json_map = String::from_str("{ ");
    to_json_map.append(join_all(extra_to_json, " ").as_str());
    to_json_map.append(join_all(&entries, "").as_str());
    to_json_map.append(" }");
    ClassBodyParts {
        ctor_args: join_all(&args, ""),
        ctor_params: join_all(&params, ""),
        field_decls: join_all(&decls, ""),
        to_json_map,
    }
}

/// The Dart class body — constructor, fields, `fromJson`, `toJson` — for a set of fields.
pub open spec fn class_body_content_text(
    class_name: Seq<char>,
    fields: Seq<DartField>,
    extra_to_json: Seq<Seq<char>>,
    codec: (Seq<char>, Seq<char>, Seq<char>),
    names: DartNames,
) -> Seq<char> {
    let (ctor_args, ctor_params, field_decls, to_json_map) = parts_of(fields, extra_to_json, names);
    "const "@ + class_name + "({"@ + ctor_params + "}); "@ + field_decls + " factory "@ + class_name
        + ".fromJson(Map<String, dynamic> json"@ + codec.1 + ") => "@ + class_name
        + "("@ + ctor_args + "); Map<String, dynamic> toJson("@ + codec.2 + ") => "@
        + to_json_map + ";"@
}

pub fn class_body_content(
    class_name: &str,
    fields: &Vec<DartField>,
    extra_to_json: &Vec<String>,
    codec: &GenericCodec,
    names: &DartNames,
) -> (text: String)
    ensures
        text@ == class_body_content_text(
            class_name@,
            fields@,
            views(extra_to_json@),
            codec_view(*codec),
            *names,
        ),
{
    let parts = class_body_parts(fields, extra_to_json, names);
    let mut text = wrapped("const ", class_name, "({");
    text.append(parts.ctor_params.as_str());
    text.append("}); ");
    text.append(parts.field_decls.as_str());
    text.append(" factory ");
    text.append(class_name);
    text.append(".fromJson(Map<String, dynamic> json");
    text.append(codec.from_json_params.as_str());
    text.append(") => ");
    text.append(class_name);
    text.append("(");
    text.append(parts.ctor_args.as_str());
    text.append("); Map<String, dynamic> toJson(");
    text.append(codec.to_json_params.as_str());
    text.append(") => ");
    text.append(parts.to_json_map.as_str());
    text.append(";");
    text
}

/// The body, wrapped as the standalone `class X<T> { … }` a named-field struct publishes.
pub open spec fn class_body_text(
    class_name: Seq<char>,
    generic_params: Seq<char>,
    fields: Seq<DartField>,
    codec: (Seq<char>, Seq<char>, Seq<char>),
    names: DartNames,
) -> Seq<char> {
    "class "@ + class_name + generic_params + " { "@ + class_body_content_text(
        class_name,
        fields,
        Seq::empty(),
        codec,
        names,
    ) + " }"@
}

pub fn class_body(
    class_name: &str,
    generic_params: &str,
    fields: &Vec<DartField>,
    codec: &GenericCodec,
    names: &DartNames,
) -> (text: String)
    ensures
        text@ == class_body_text(class_name@, generic_params@, fields@, codec_view(*codec), *names),
{
    let no_extra: Vec<String> = Vec::new();
    assert(views(no_extra@) =~= Seq::<Seq<char>>::empty());
    let content = class_body_content(class_name, fields, &no_extra, codec, names);
    let mut text = wrapped("class ", class_name, generic_params);
    text.append(" { ");
    text.append(content.as_str());
    text.append(" }");
    text
}

} // verus!
