//! What a field's type is, as every surface reads it: the shape of the Rust type a field or a
//! message position names, the array levels around it, whether a level may be `null`, whether
//! the whole field may be missing — and how that type is written in TypeScript.
use crate::text::{join, join_all, push_char, views};
use vstd::prelude::*;

verus! {

/// The scalar (or compound) shape of a type, once its array levels and its outer optionality are
/// taken off.
pub enum FieldDefType {
    /// A type nothing here can describe, carried through as an untyped value.
    Unknown,
    /// One of the enclosing item's own type parameters.
    TypeParam(String),
    /// A tuple; the empty tuple is `()`.
    Tuple(Vec<FieldDef>),
    /// Another item with a published schema, with its type arguments.
    SiblingType(String, Vec<FieldDef>),
    /// A map from keys to values.
    Mapping(Box<FieldDef>, Box<FieldDef>),
    Boolean,
    Char,
    String,
    StringLiteral(String),
    BooleanLiteral(bool),
    /// A numeric literal, as written.
    NumberLiteral(String),
    U8,
    U16,
    U32,
    U64,
    I8,
    I16,
    I32,
    I64,
    Usize,
    Isize,
    F32,
    F64,
    ObjectId,
    NaiveDate,
    NaiveTime,
    NaiveDateTime,
    DateTime,
}

/// How a type travels when it is a map's key: JSON keys are always strings, so each kind of key
/// has its own string form.
#[derive(Clone, Copy, PartialEq, Eq, Structural)]
pub enum MapKeyWire {
    Boolean,
    Timestamp,
    Enumerated,
    Named,
}

/// One field, or one position in a signature, described for rendering.
pub struct FieldDef {
    pub field_type: FieldDefType,
    /// How many `Vec` levels wrap the scalar.
    pub array_depth: u8,
    /// Whether the element at each array level (innermost first) may be `null`.
    pub nullable_levels: Vec<bool>,
    /// Whether the field as a whole may be missing or `null`.
    pub optional: bool,
    /// A timestamp declared to travel as a number.
    pub as_number: bool,
    /// An optional field declared `nullable`: its key is always written, `null` or not.
    pub nullable: bool,
    /// How the type travels as a map key.
    pub map_key_wire: MapKeyWire,
    /// Whether the type is a type-parameter shape (which travels as a plain string key).
    pub parameter_shape: bool,
}

/// What the items compiled so far recorded about themselves, for a later reference to read.
pub struct Recorded {
    /// Structs with no fields at all.
    pub unit_structs: Vec<String>,
    /// Enums declared `#[serde(untagged)]`.
    pub untagged_enums: Vec<String>,
}

/// Whether the element at array level `level` may be `null`.
pub open spec fn nullable_at(field: FieldDef, level: int) -> bool {
    0 <= level < field.nullable_levels@.len() && field.nullable_levels@[level]
}

pub fn is_nullable_at(field: &FieldDef, level: u8) -> (nullable: bool)
    ensures
        nullable == nullable_at(*field, level as int),
{
    (level as usize) < field.nullable_levels.len() && field.nullable_levels[level as usize]
}

/// Whether the type at array level `level` of `field` (the type inside its innermost `level`
/// array levels, so the field itself at `array_depth`) may be missing or `null`: the field's own
/// optionality at its top level, an element's nullability below it.
pub open spec fn optional_at(field: FieldDef, level: nat) -> bool {
    if level >= field.array_depth {
        field.optional
    } else {
        nullable_at(field, level as int)
    }
}

pub fn is_optional_at(field: &FieldDef, level: u8) -> (optional: bool)
    ensures
        optional == optional_at(*field, level as nat),
{
    if level >= field.array_depth {
        field.optional
    } else {
        is_nullable_at(field, level)
    }
}

/// Whether `name` is one of `names`.
pub open spec fn named_in(names: Seq<String>, name: Seq<char>) -> bool {
    views(names).contains(name)
}

pub fn contains_name(names: &Vec<String>, name: &str) -> (found: bool)
    ensures
        found == named_in(names@, name@),
{
    let owned = name.to_owned();
    let mut i: usize = 0;
    while i < names.len()
        invariant
            0 <= i <= names.len(),
            owned@ == name@,
            forall|j: int| 0 <= j < i ==> names@[j]@ != name@,
        decreases names.len() - i,
    {
        if names[i] == owned {
            assert(views(names@)[i as int] == name@);
            return true;
        }
        i += 1;
    }
    assert(!views(names@).contains(name@)) by {
        if views(names@).contains(name@) {
            let k = choose|k: int| 0 <= k < views(names@).len() && views(names@)[k] == name@;
            assert(names@[k]@ == name@);
        }
    }
    false
}

/// Whether a type answers nothing at all: `()`, or a struct recorded as having no fields.
pub open spec fn unit_type(field: FieldDef, recorded: Recorded) -> bool {
    &&& field.array_depth == 0
    &&& !field.optional
    &&& match field.field_type {
        FieldDefType::Tuple(elements) => elements@.len() == 0,
        FieldDefType::SiblingType(name, generics) => generics@.len() == 0 && named_in(
            recorded.unit_structs@,
            name@,
        ),
        _ => false,
    }
}

pub fn is_unit_type(field: &FieldDef, recorded: &Recorded) -> (unit: bool)
    ensures
        unit == unit_type(*field, *recorded),
{
    if field.array_depth != 0 || field.optional {
        return false;
    }
    match &field.field_type {
        FieldDefType::Tuple(elements) => elements.len() == 0,
        FieldDefType::SiblingType(name, generics) => generics.len() == 0 && contains_name(
            &recorded.unit_structs,
            name.as_str(),
        ),
        _ => false,
    }
}

/// The decimal digit `d` stands for.
pub open spec fn digit(d: nat) -> char {
    ((d + 48) as u8) as char
}

/// `n` written in decimal.
pub open spec fn decimal(n: nat) -> Seq<char>
    decreases n,
{
    if n < 10 {
        seq![digit(n)]
    } else {
        decimal(n / 10) + seq![digit(n % 10)]
    }
}

pub fn decimal_text(n: u64) -> (text: String)
    ensures
        text@ == decimal(n as nat),
    decreases n,
{
    if n < 10 {
        let mut text = String::new();
        push_char(&mut text, ((n as u8) + 48) as char);
        text
    } else {
        let mut text = decimal_text(n / 10);
        push_char(&mut text, (((n % 10) as u8) + 48) as char);
        text
    }
}

/// The TypeScript of each of `fields`, in order.
pub open spec fn ts_list(fields: Seq<FieldDef>, recorded: Recorded) -> Seq<Seq<char>>
    decreases fields,
{
    if fields.len() == 0 {
        Seq::empty()
    } else {
        ts_list(fields.drop_last(), recorded).push(ts_typename(fields.last(), recorded))
    }
}

/// The TypeScript of a type before its array levels and its optionality.
pub open spec fn ts_scalar(field: FieldDef, recorded: Recorded) -> Seq<char>
    decreases field, 0nat,
{
    match field.field_type {
        FieldDefType::Unknown => "unknown"@,
        FieldDefType::TypeParam(name) => name@,
        FieldDefType::Tuple(elements) => if elements@.len() == 0 {
            "undefined"@
        } else {
            "["@ + join(ts_list(elements@, recorded), ", "@) + "]"@
        },
        FieldDefType::SiblingType(name, generics) => if generics@.len() == 0 {
            if named_in(recorded.unit_structs@, name@) {
                "undefined"@
            } else {
                name@
            }
        } else {
            name@ + "<"@ + join(ts_list(generics@, recorded), ", "@) + ">"@
        },
        FieldDefType::Mapping(key, value) => "Record<"@ + ts_typename(*key, recorded) + ", "@
            + ts_typename(*value, recorded) + ">"@,
        FieldDefType::Boolean => "boolean"@,
        FieldDefType::Char => "string"@,
        FieldDefType::String => "string"@,
        FieldDefType::StringLiteral(text) => "\""@ + text@ + "\""@,
        FieldDefType::BooleanLiteral(b) => if b {
            "true"@
        } else {
            "false"@
        },
        FieldDefType::NumberLiteral(text) => text@,
        FieldDefType::ObjectId => "string"@,
        FieldDefType::NaiveDate => "string"@,
        FieldDefType::NaiveTime => "string"@,
        FieldDefType::NaiveDateTime => "string"@,
        FieldDefType::DateTime => if field.as_number {
            "number"@
        } else {
            "string"@
        },
        _ => "number"@,
    }
}

/// The TypeScript of a type with its innermost `level` array levels around it.
pub open spec fn ts_at(field: FieldDef, level: nat, recorded: Recorded) -> Seq<char>
    decreases field, 1nat, level,
{
    if level == 0 {
        ts_scalar(field, recorded)
    } else {
        let wrapped = ts_at(field, (level - 1) as nat, recorded);
        let item = if nullable_at(field, level - 1) {
            wrapped + " | null"@
        } else {
            wrapped
        };
        "Array<"@ + item + ">"@
    }
}

/// The TypeScript a type is written as: every array level, and `| undefined` where the whole
/// may be missing.
pub open spec fn ts_typename(field: FieldDef, recorded: Recorded) -> Seq<char>
    decreases field, 2nat,
{
    let base = ts_at(field, field.array_depth as nat, recorded);
    if field.optional {
        base + " | undefined"@
    } else {
        base
    }
}

/// Renders each of `fields` as TypeScript.
pub fn typescript_list(fields: &Vec<FieldDef>, recorded: &Recorded) -> (rendered: Vec<String>)
    ensures
        views(rendered@) == ts_list(fields@, *recorded),
    decreases fields@,
{
    let mut rendered: Vec<String> = Vec::new();
    let mut i: usize = 0;
    while i < fields.len()
        invariant
            0 <= i <= fields.len(),
            views(rendered@) == ts_list(fields@.take(i as int), *recorded),
        decreases fields.len() - i,
    {
        assert(decreases_to!(fields@ => fields@[i as int]));
        let one = typescript_typename(&fields[i], recorded);
        rendered.push(one);
        assert(fields@.take(i + 1).drop_last() =~= fields@.take(i as int));
        assert(views(rendered@) =~= ts_list(fields@.take(i as int), *recorded).push(one@));
        i += 1;
    }
    assert(fields@.take(fields.len() as int) =~= fields@);
    rendered
}

/// [`ts_scalar`]: the TypeScript of a type before its array levels and optionality.
pub fn typescript_scalar(field: &FieldDef, recorded: &Recorded) -> (text: String)
    ensures
        text@ == ts_scalar(*field, *recorded),
    decreases field, 0nat,
{
    match &field.field_type {
        FieldDefType::Unknown => String::from_str("unknown"),
        FieldDefType::TypeParam(name) => name.clone(),
        FieldDefType::Tuple(elements) => {
            if elements.len() == 0 {
                String::from_str("undefined")
            } else {
                let rendered = typescript_list(elements, recorded);
                let mut text = String::from_str("[");
                text.append(join_all(&rendered, ", ").as_str());
                text.append("]");
                text
            }
        },
        FieldDefType::SiblingType(name, generics) => {
            if generics.len() == 0 {
                if contains_name(&recorded.unit_structs, name.as_str()) {
                    String::from_str("undefined")
                } else {
                    name.clone()
                }
            } else {
                let rendered = typescript_list(generics, recorded);
                let mut text = name.clone();
                text.append("<");
                text.append(join_all(&rendered, ", ").as_str());
                text.append(">");
                text
            }
        },
        FieldDefType::Mapping(key, value) => {
            let mut text = String::from_str("Record<");
            text.append(typescript_typename(key, recorded).as_str());
            text.append(", ");
            text.append(typescript_typename(value, recorded).as_str());
            text.append(">");
            text
        },
        FieldDefType::Boolean => String::from_str("boolean"),
        FieldDefType::Char => String::from_str("string"),
        FieldDefType::String => String::from_str("string"),
        FieldDefType::StringLiteral(literal) => {
            let mut text = String::from_str("\"");
            text.append(literal.as_str());
            text.append("\"");
            text
        },
        FieldDefType::BooleanLiteral(b) => if *b {
            String::from_str("true")
        } else {
            String::from_str("false")
        },
        FieldDefType::NumberLiteral(literal) => literal.clone(),
        FieldDefType::ObjectId => String::from_str("string"),
        FieldDefType::NaiveDate => String::from_str("string"),
        FieldDefType::NaiveTime => String::from_str("string"),
        FieldDefType::NaiveDateTime => String::from_str("string"),
        FieldDefType::DateTime => if field.as_number {
            String::from_str("number")
        } else {
            String::from_str("string")
        },
        _ => String::from_str("number"),
    }
}

/// [`ts_at`]: the TypeScript of a type inside its innermost `level` array levels.
pub fn typescript_at(field: &FieldDef, level: u8, recorded: &Recorded) -> (text: String)
    ensures
        text@ == ts_at(*field, level as nat, *recorded),
    decreases field, 1nat, level,
{
    if level == 0 {
        typescript_scalar(field, recorded)
    } else {
        let mut item = typescript_at(field, level - 1, recorded);
        if is_nullable_at(field, level - 1) {
            item.append(" | null");
        }
        let mut text = String::from_str("Array<");
        text.append(item.as_str());
        text.append(">");
        text
    }
}

/// The TypeScript a field's type is written as: [`ts_typename`].
pub fn typescript_typename(field: &FieldDef, recorded: &Recorded) -> (text: String)
    ensures
        text@ == ts_typename(*field, *recorded),
    decreases field, 2nat,
{
    let mut text = typescript_at(field, field.array_depth, recorded);
    if field.optional {
        text.append(" | undefined");
    }
    text
}

} // verus!
