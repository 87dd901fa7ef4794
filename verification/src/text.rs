//! Joining rendered pieces of text, and spelling a string as the Rust literal that holds it.
use vstd::prelude::*;

verus! {

/// The members of `list`, in order, with `sep` between each two neighbours.
pub open spec fn join(list: Seq<Seq<char>>, sep: Seq<char>) -> Seq<char>
    decreases list.len(),
{
    if list.len() == 0 {
        Seq::empty()
    } else if list.len() == 1 {
        list[0]
    } else {
        join(list.drop_last(), sep) + sep + list.last()
    }
}

/// The text each string of `list` holds.
pub open spec fn views(list: Seq<String>) -> Seq<Seq<char>> {
    list.map_values(|s: String| s@)
}

/// Joins `list` with `sep`, as `[..].join(sep)` does.
pub fn join_all(list: &Vec<String>, sep: &str) -> (joined: String)
    ensures
        joined@ == join(views(list@), sep@),
{
    let mut joined = String::new();
    let ghost all = views(list@);
    let mut i: usize = 0;
    while i < list.len()
        invariant
            0 <= i <= list.len(),
            all == views(list@),
            joined@ == join(all.take(i as int), sep@),
        decreases list.len() - i,
    {
        if i != 0 {
            joined.append(sep);
        }
        joined.append(list[i].as_str());
        assert(all.take(i + 1).drop_last() =~= all.take(i as int));
        i += 1;
    }
    assert(all.take(list.len() as int) =~= all);
    joined
}

/// The lower-case hexadecimal digit `d` stands for.
pub open spec fn hex_digit(d: u32) -> char {
    if d < 10 {
        ((d + 48) as u8) as char
    } else {
        ((d + 87) as u8) as char
    }
}

/// How one character is written inside a double-quoted Rust string literal: a backslash, a
/// double quote, a newline, a carriage return and a tab by their escapes, any other control
/// character as `\u{..}` in two hexadecimal digits, and every other character as itself.
pub open spec fn escaped_char(c: char) -> Seq<char> {
    if c == '\\' {
        seq!['\\', '\\']
    } else if c == '"' {
        seq!['\\', '"']
    } else if c == '\n' {
        seq!['\\', 'n']
    } else if c == '\r' {
        seq!['\\', 'r']
    } else if c == '\t' {
        seq!['\\', 't']
    } else if (c as u32) < 32 || (c as u32) == 127 {
        seq!['\\', 'u', '{', hex_digit((c as u32) / 16), hex_digit((c as u32) % 16), '}']
    } else {
        seq![c]
    }
}

/// Every character of `text`, written as [`escaped_char`] writes it.
pub open spec fn escaped(text: Seq<char>) -> Seq<char>
    decreases text.len(),
{
    if text.len() == 0 {
        Seq::empty()
    } else {
        escaped(text.drop_last()) + escaped_char(text.last())
    }
}

/// The double-quoted Rust string literal whose value is `text`.
pub open spec fn rust_string_literal(text: Seq<char>) -> Seq<char> {
    seq!['"'] + escaped(text) + seq!['"']
}

/// Appends [`escaped_char`] of `c` to `out`.
fn push_escaped(out: &mut String, c: char)
    ensures
        final(out)@ == old(out)@ + escaped_char(c),
{
    let ghost before = out@;
    if c == '\\' {
        push_char(out, '\\');
        push_char(out, '\\');
    } else if c == '"' {
        push_char(out, '\\');
        push_char(out, '"');
    } else if c == '\n' {
        push_char(out, '\\');
        push_char(out, 'n');
    } else if c == '\r' {
        push_char(out, '\\');
        push_char(out, 'r');
    } else if c == '\t' {
        push_char(out, '\\');
        push_char(out, 't');
    } else if (c as u32) < 32 || (c as u32) == 127 {
        let code = c as u32;
        let high = code / 16;
        let low = code % 16;
        push_char(out, '\\');
        push_char(out, 'u');
        push_char(out, '{');
        push_char(out, if high < 10 { ((high + 48) as u8) as char } else { ((high + 87) as u8) as char });
        push_char(out, if low < 10 { ((low + 48) as u8) as char } else { ((low + 87) as u8) as char });
        push_char(out, '}');
    } else {
        push_char(out, c);
    }
    assert(out@ =~= before + escaped_char(c));
}

/// Spells `text` as the double-quoted Rust string literal whose value it is.
pub fn string_literal(text: &str) -> (literal: String)
    ensures
        literal@ == rust_string_literal(text@),
{
    let mut literal = String::new();
    push_char(&mut literal, '"');
    let n = text.unicode_len();
    let mut i: usize = 0;
    while i < n
        invariant
            n == text@.len(),
            0 <= i <= n,
            literal@ == seq!['"'] + escaped(text@.take(i as int)),
        decreases n - i,
    {
        let c = text.get_char(i);
        assert(text@.take(i + 1).drop_last() =~= text@.take(i as int));
        push_escaped(&mut literal, c);
        i += 1;
    }
    assert(text@.take(n as int) =~= text@);
    push_char(&mut literal, '"');
    literal
}

/// Appends `c` to `s`: `String::push`.
#[verifier::external_body]
pub(crate) fn push_char(s: &mut String, c: char)
    ensures
        final(s)@ == old(s)@.push(c),
{
    s.push(c);
}

} // verus!
