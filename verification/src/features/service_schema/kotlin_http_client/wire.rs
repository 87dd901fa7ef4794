//! How the Kotlin `http_rest` client writes one value as URL- or header-safe text, reads one back
//! off a response header, and writes a path literal inside a Kotlin string.
//!
//! A type is read level by level: level `n` of a field is the type inside its innermost `n`
//! array levels, so the field itself is its level `array_depth`.
use crate::features::dart::is_integer;
use crate::features::kotlin::{kotlin_scalar, kt_scalar, tuples_of, KotlinNames, TupleWrappers, Tuples};
use crate::field_type::{is_optional_at, optional_at, FieldDef, FieldDefType};
use crate::text::push_char;
use vstd::prelude::*;

verus! {

/// The Kotlin expression that renders the value of `field`'s level `level` at `expr` as text: an
/// absent one as the empty string, a list joined with commas, a sibling type read through its
/// JSON codec first. `promoted` says `expr` is already known not to be `null`.
pub open spec fn wire_text(
    field: FieldDef,
    level: nat,
    expr: Seq<char>,
    promoted: bool,
    names: KotlinNames,
    st: Tuples,
) -> (Seq<char>, Tuples)
    decreases level, 1nat,
{
    if optional_at(field, level) {
        let narrowed = if promoted {
            expr
        } else {
            expr + "!!"@
        };
        let (rendered, s1) = present_wire_text(field, level, narrowed, promoted, names, st);
        ("(if ("@ + expr + " == null) \"\" else "@ + rendered + ")"@, s1)
    } else {
        present_wire_text(field, level, expr, promoted, names, st)
    }
}

/// [`wire_text`] for a value known to be present.
pub open spec fn present_wire_text(
    field: FieldDef,
    level: nat,
    expr: Seq<char>,
    promoted: bool,
    names: KotlinNames,
    st: Tuples,
) -> (Seq<char>, Tuples)
    decreases level, 0nat,
{
    if level > 0 {
        let (element, s1) = wire_text(field, (level - 1) as nat, "it"@, true, names, st);
        ("("@ + expr + ").joinToString(\",\") { "@ + element + " }"@, s1)
    } else if field.field_type is SiblingType {
        let (ty, s1) = kt_scalar(field, names, st);
        ("Json.encodeToJsonElement(serializer<"@ + ty + ">(), "@ + expr + ").jsonPrimitive.content"@, s1)
    } else {
        ("\"${"@ + expr + "}\""@, st)
    }
}

pub fn kotlin_wire_text(
    field: &FieldDef,
    level: u8,
    expr: &str,
    promoted: bool,
    names: &KotlinNames,
    tuples: &mut TupleWrappers,
) -> (text: String)
    ensures
        (text@, tuples_of(*final(tuples))) == wire_text(
            *field,
            level as nat,
            expr@,
            promoted,
            *names,
            tuples_of(*old(tuples)),
        ),
    decreases level, 1nat,
{
    if is_optional_at(field, level) {
        let narrowed = if promoted {
            expr.to_owned()
        } else {
            let mut narrowed = expr.to_owned();
            narrowed.append("!!");
            narrowed
        };
        let rendered = present_kotlin_wire_text(field, level, narrowed.as_str(), promoted, names, tuples);
        let mut text = String::from_str("(if (");
        text.append(expr);
        text.append(" == null) \"\" else ");
        text.append(rendered.as_str());
        text.append(")");
        text
    } else {
        present_kotlin_wire_text(field, level, expr, promoted, names, tuples)
    }
}

pub(crate) fn present_kotlin_wire_text(
    field: &FieldDef,
    level: u8,
    expr: &str,
    promoted: bool,
    names: &KotlinNames,
    tuples: &mut TupleWrappers,
) -> (text: String)
    ensures
        (text@, tuples_of(*final(tuples))) == present_wire_text(
            *field,
            level as nat,
            expr@,
            promoted,
            *names,
            tuples_of(*old(tuples)),
        ),
    decreases level, 0nat,
{
    if level > 0 {
        let element = kotlin_wire_text(field, level - 1, "it", true, names, tuples);
        let mut text = String::from_str("(");
        text.append(expr);
        text.append(").joinToString(\",\") { ");
        text.append(element.as_str());
        text.append(" }");
        text
    } else if let FieldDefType::SiblingType(_, _) = &field.field_type {
        let ty = kotlin_scalar(field, names, tuples);
        let mut text = String::from_str("Json.encodeToJsonElement(serializer<");
        text.append(ty.as_str());
        text.append(">(), ");
        text.append(expr);
        text.append(").jsonPrimitive.content");
        text
    } else {
        let mut text = String::from_str("\"${");
        text.append(expr);
        text.append("}\"");
        text
    }
}

/// The expression reading `field`'s level `level` back off `raw`, a response header's text
/// already known present: a list split on commas, a `bool` compared with `true`, a number
/// parsed, anything else the text itself.
pub open spec fn header_decode_text(field: FieldDef, level: nat, raw: Seq<char>) -> Seq<char>
    decreases level,
{
    if level > 0 {
        "("@ + raw + ").split(\",\").map { piece -> "@ + header_decode_text(field, (level - 1) as nat, "piece"@)
            + " }"@
    } else if field.field_type is Boolean {
        "("@ + raw + " == \"true\")"@
    } else if is_integer(field.field_type) {
        "("@ + raw + ").toLong()"@
    } else if field.field_type is F32 || field.field_type is F64 {
        "("@ + raw + ").toDouble()"@
    } else {
        raw
    }
}

pub fn kotlin_header_out_decode(field: &FieldDef, level: u8, raw: &str) -> (text: String)
    ensures
        text@ == header_decode_text(*field, level as nat, raw@),
    decreases level,
{
    if level > 0 {
        let element = kotlin_header_out_decode(field, level - 1, "piece");
        let mut text = String::from_str("(");
        text.append(raw);
        text.append(").split(\",\").map { piece -> ");
        text.append(element.as_str());
        text.append(" }");
        return text;
    }
    let (prefix, suffix) = match &field.field_type {
        FieldDefType::Boolean => ("(", " == \"true\")"),
        FieldDefType::U8 | FieldDefType::U16 | FieldDefType::U32 | FieldDefType::U64 | FieldDefType::I8
        | FieldDefType::I16 | FieldDefType::I32 | FieldDefType::I64 | FieldDefType::Usize
        | FieldDefType::Isize => ("(", ").toLong()"),
        FieldDefType::F32 | FieldDefType::F64 => ("(", ").toDouble()"),
        _ => {
            return raw.to_owned();
        },
    };
    let mut text = String::from_str(prefix);
    text.append(raw);
    text.append(suffix);
    text
}

/// `text` escaped for a double-quoted Kotlin string: a backslash, a double quote and a dollar
/// sign each preceded by a backslash.
pub open spec fn kotlin_escaped(text: Seq<char>) -> Seq<char>
    decreases text.len(),
{
    if text.len() == 0 {
        Seq::empty()
    } else {
        let c = text.last();
        let before = kotlin_escaped(text.drop_last());
        if c == '\\' || c == '"' || c == '$' {
            before.push('\\').push(c)
        } else {
            before.push(c)
        }
    }
}

pub fn kotlin_escape(text: &str) -> (escaped: String)
    ensures
        escaped@ == kotlin_escaped(text@),
{
    let mut escaped = String::new();
    let n = text.unicode_len();
    let mut i: usize = 0;
    while i < n
        invariant
            n == text@.len(),
            0 <= i <= n,
            escaped@ == kotlin_escaped(text@.take(i as int)),
        decreases n - i,
    {
        let c = text.get_char(i);
        assert(text@.take(i + 1).drop_last() =~= text@.take(i as int));
        if c == '\\' || c == '"' || c == '$' {
            push_char(&mut escaped, '\\');
        }
        push_char(&mut escaped, c);
        i += 1;
    }
    assert(text@.take(n as int) =~= text@);
    escaped
}

} // verus!
