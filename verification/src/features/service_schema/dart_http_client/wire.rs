//! How the Dart `http_rest` client writes one value as URL- or header-safe text, reads one back
//! off a response header, and writes a path literal inside a single-quoted Dart string.
//!
//! A type is read level by level: level `n` of a field is the type inside its innermost `n`
//! array levels, so the field itself is its level `array_depth`.
use crate::features::dart::is_integer;
use crate::field_type::{is_optional_at, optional_at, FieldDef, FieldDefType};
use crate::text::push_char;
use vstd::prelude::*;

verus! {

/// The Dart expression that renders the value of `field`'s level `level` at `expr` as text: an
/// absent one as the empty string, a list joined with commas, a sibling type read through its own
/// `toJson()` first. `promoted` says Dart already knows `expr` is not `null`.
pub open spec fn dart_wire(field: FieldDef, level: nat, expr: Seq<char>, promoted: bool) -> Seq<char>
    decreases level, 1nat,
{
    if optional_at(field, level) {
        let narrowed = if promoted {
            expr
        } else {
            expr + "!"@
        };
        "("@ + expr + " == null ? '' : "@ + present_dart_wire(field, level, narrowed, promoted) + ")"@
    } else {
        present_dart_wire(field, level, expr, promoted)
    }
}

/// [`dart_wire`] for a value known to be present.
pub open spec fn present_dart_wire(field: FieldDef, level: nat, expr: Seq<char>, promoted: bool) -> Seq<char>
    decreases level, 0nat,
{
    if level > 0 {
        "("@ + expr + ").map((e) => "@ + dart_wire(field, (level - 1) as nat, "e"@, true) + ").join(\",\")"@
    } else if field.field_type is SiblingType {
        "'${("@ + expr + ").toJson()}'"@
    } else {
        "'${"@ + expr + "}'"@
    }
}

pub fn dart_wire_text(field: &FieldDef, level: u8, expr: &str, promoted: bool) -> (text: String)
    ensures
        text@ == dart_wire(*field, level as nat, expr@, promoted),
    decreases level, 1nat,
{
    if is_optional_at(field, level) {
        let narrowed = if promoted {
            expr.to_owned()
        } else {
            let mut narrowed = expr.to_owned();
            narrowed.append("!");
            narrowed
        };
        let rendered = present_dart_wire_text(field, level, narrowed.as_str(), promoted);
        let mut text = String::from_str("(");
        text.append(expr);
        text.append(" == null ? '' : ");
        text.append(rendered.as_str());
        text.append(")");
        text
    } else {
        present_dart_wire_text(field, level, expr, promoted)
    }
}

pub(crate) fn present_dart_wire_text(field: &FieldDef, level: u8, expr: &str, promoted: bool) -> (text: String)
    ensures
        text@ == present_dart_wire(*field, level as nat, expr@, promoted),
    decreases level, 0nat,
{
    if level > 0 {
        let element = dart_wire_text(field, level - 1, "e", true);
        let mut text = String::from_str("(");
        text.append(expr);
        text.append(").map((e) => ");
        text.append(element.as_str());
        text.append(").join(\",\")");
        text
    } else if let FieldDefType::SiblingType(_, _) = &field.field_type {
        let mut text = String::from_str("'${(");
        text.append(expr);
        text.append(").toJson()}'");
        text
    } else {
        let mut text = String::from_str("'${");
        text.append(expr);
        text.append("}'");
        text
    }
}

/// The expression reading `field`'s level `level` back off `raw`, a response header's text
/// already known present: a list split on commas, a `bool` compared with `'true'`, a number
/// parsed, anything else the text itself.
pub open spec fn dart_header_decode(field: FieldDef, level: nat, raw: Seq<char>) -> Seq<char>
    decreases level,
{
    if level > 0 {
        "("@ + raw + ").split(\",\").map((piece) => "@ + dart_header_decode(field, (level - 1) as nat, "piece"@)
            + ").toList()"@
    } else if field.field_type is Boolean {
        "("@ + raw + " == 'true')"@
    } else if is_integer(field.field_type) {
        "int.parse("@ + raw + ")"@
    } else if field.field_type is F32 || field.field_type is F64 {
        "double.parse("@ + raw + ")"@
    } else {
        raw
    }
}

pub fn dart_header_out_decode(field: &FieldDef, level: u8, raw: &str) -> (text: String)
    ensures
        text@ == dart_header_decode(*field, level as nat, raw@),
    decreases level,
{
    if level > 0 {
        let element = dart_header_out_decode(field, level - 1, "piece");
        let mut text = String::from_str("(");
        text.append(raw);
        text.append(").split(\",\").map((piece) => ");
        text.append(element.as_str());
        text.append(").toList()");
        return text;
    }
    let (prefix, suffix) = match &field.field_type {
        FieldDefType::Boolean => ("(", " == 'true')"),
        FieldDefType::U8 | FieldDefType::U16 | FieldDefType::U32 | FieldDefType::U64 | FieldDefType::I8
        | FieldDefType::I16 | FieldDefType::I32 | FieldDefType::I64 | FieldDefType::Usize
        | FieldDefType::Isize => ("int.parse(", ")"),
        FieldDefType::F32 | FieldDefType::F64 => ("double.parse(", ")"),
        _ => {
            return raw.to_owned();
        },
    };
    let mut text = String::from_str(prefix);
    text.append(raw);
    text.append(suffix);
    text
}

/// `text` escaped for a single-quoted Dart string: a backslash, a single quote and a dollar sign
/// each preceded by a backslash.
pub open spec fn dart_escaped(text: Seq<char>) -> Seq<char>
    decreases text.len(),
{
    if text.len() == 0 {
        Seq::empty()
    } else {
        let c = text.last();
        let before = dart_escaped(text.drop_last());
        if c == '\\' || c == '\'' || c == '$' {
            before.push('\\').push(c)
        } else {
            before.push(c)
        }
    }
}

pub fn dart_escape(text: &str) -> (escaped: String)
    ensures
        escaped@ == dart_escaped(text@),
{
    let mut escaped = String::new();
    let n = text.unicode_len();
    let mut i: usize = 0;
    while i < n
        invariant
            n == text@.len(),
            0 <= i <= n,
            escaped@ == dart_escaped(text@.take(i as int)),
        decreases n - i,
    {
        let c = text.get_char(i);
        assert(text@.take(i + 1).drop_last() =~= text@.take(i as int));
        if c == '\\' || c == '\'' || c == '$' {
            push_char(&mut escaped, '\\');
        }
        push_char(&mut escaped, c);
        i += 1;
    }
    assert(text@.take(n as int) =~= text@);
    escaped
}

} // verus!
