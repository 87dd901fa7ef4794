//! The case conventions names are rewritten into: a `snake_case` Rust field becoming a
//! `PascalCase` type name or a `camelCase` member, a `PascalCase` type becoming a `camelCase`
//! value or a `snake_case` module.
use crate::text::push_char;
use vstd::prelude::*;

verus! {

/// `c` in upper case, where it is an ASCII lower-case letter; `c` itself otherwise.
pub open spec fn ascii_upper(c: char) -> char {
    if 'a' <= c && c <= 'z' {
        (((c as u8) - 32) as u8) as char
    } else {
        c
    }
}

/// `c` in lower case, where it is an ASCII upper-case letter; `c` itself otherwise.
pub open spec fn ascii_lower(c: char) -> char {
    if 'A' <= c && c <= 'Z' {
        (((c as u8) + 32) as u8) as char
    } else {
        c
    }
}

pub fn to_ascii_upper(c: char) -> (upper: char)
    ensures
        upper == ascii_upper(c),
{
    if 'a' <= c && c <= 'z' {
        ((c as u8) - 32) as char
    } else {
        c
    }
}

pub fn to_ascii_lower(c: char) -> (lower: char)
    ensures
        lower == ascii_lower(c),
{
    if 'A' <= c && c <= 'Z' {
        ((c as u8) + 32) as char
    } else {
        c
    }
}

/// The `PascalCase` spelling of the rest of a `snake_case` name: every `_` dropped, and the letter
/// after one (or the first, where `capitalize`) in upper case.
pub open spec fn pascal_from(s: Seq<char>, capitalize: bool) -> Seq<char>
    decreases s.len(),
{
    if s.len() == 0 {
        Seq::empty()
    } else if s[0] == '_' {
        pascal_from(s.drop_first(), true)
    } else if capitalize {
        seq![ascii_upper(s[0])] + pascal_from(s.drop_first(), false)
    } else {
        seq![s[0]] + pascal_from(s.drop_first(), false)
    }
}

/// `get_available_balance` as `GetAvailableBalance`.
pub open spec fn pascal_case(field: Seq<char>) -> Seq<char> {
    pascal_from(field, true)
}

/// `s` with its first character in lower case.
pub open spec fn lower_first(s: Seq<char>) -> Seq<char> {
    if s.len() == 0 {
        s
    } else {
        seq![ascii_lower(s[0])] + s.drop_first()
    }
}

/// `get_available_balance` as `getAvailableBalance`.
pub open spec fn camel_case(field: Seq<char>) -> Seq<char> {
    lower_first(pascal_case(field))
}

/// `UsageService` as `usage_service`: a `_` before every upper-case letter but the first, and
/// every letter in lower case.
pub open spec fn snake_from(s: Seq<char>, first: bool) -> Seq<char>
    decreases s.len(),
{
    if s.len() == 0 {
        Seq::empty()
    } else if 'A' <= s[0] && s[0] <= 'Z' && !first {
        seq!['_', ascii_lower(s[0])] + snake_from(s.drop_first(), false)
    } else {
        seq![ascii_lower(s[0])] + snake_from(s.drop_first(), false)
    }
}

pub open spec fn snake_case(variant: Seq<char>) -> Seq<char> {
    snake_from(variant, true)
}

/// The `PascalCase` spelling of a `snake_case` field name.
pub fn pascal_case_of_field(field: &str) -> (pascal: String)
    ensures
        pascal@ == pascal_case(field@),
{
    let mut pascal = String::new();
    let mut capitalize = true;
    let n = field.unicode_len();
    let mut i: usize = 0;
    assert(field@.skip(0) =~= field@);
    while i < n
        invariant
            n == field@.len(),
            0 <= i <= n,
            pascal@ + pascal_from(field@.skip(i as int), capitalize) == pascal_case(field@),
        decreases n - i,
    {
        let c = field.get_char(i);
        let ghost rest = field@.skip(i as int);
        assert(rest[0] == c);
        assert(rest.drop_first() =~= field@.skip(i + 1));
        if c == '_' {
            capitalize = true;
        } else if capitalize {
            push_char(&mut pascal, to_ascii_upper(c));
            capitalize = false;
        } else {
            push_char(&mut pascal, c);
        }
        i += 1;
    }
    assert(field@.skip(n as int) =~= Seq::<char>::empty());
    pascal
}

/// `s` with its first character in lower case.
pub fn lower_first_char(s: &str) -> (lowered: String)
    ensures
        lowered@ == lower_first(s@),
{
    let mut lowered = String::new();
    let n = s.unicode_len();
    let mut i: usize = 0;
    while i < n
        invariant
            n == s@.len(),
            0 <= i <= n,
            i > 0 ==> lowered@ == seq![ascii_lower(s@[0])] + s@.subrange(1, i as int),
            i == 0 ==> lowered@ == Seq::<char>::empty(),
        decreases n - i,
    {
        let c = s.get_char(i);
        if i == 0 {
            push_char(&mut lowered, to_ascii_lower(c));
        } else {
            push_char(&mut lowered, c);
        }
        assert(i > 0 ==> s@.subrange(1, i + 1) =~= s@.subrange(1, i as int).push(c));
        i += 1;
    }
    assert(n > 0 ==> s@.subrange(1, n as int) =~= s@.drop_first());
    lowered
}

/// The `camelCase` spelling of a `snake_case` field name.
pub fn camel_case_of_field(field: &str) -> (camel: String)
    ensures
        camel@ == camel_case(field@),
{
    let pascal = pascal_case_of_field(field);
    lower_first_char(pascal.as_str())
}

/// The `camelCase` spelling of a `PascalCase` type name: its first letter in lower case.
pub fn camel_case_of_variant(variant: &str) -> (camel: String)
    ensures
        camel@ == lower_first(variant@),
{
    lower_first_char(variant)
}

/// The `snake_case` spelling of a `PascalCase` type name.
pub fn snake_case_of_variant(variant: &str) -> (snake: String)
    ensures
        snake@ == snake_case(variant@),
{
    let mut snake = String::new();
    let n = variant.unicode_len();
    let mut i: usize = 0;
    assert(variant@.skip(0) =~= variant@);
    while i < n
        invariant
            n == variant@.len(),
            0 <= i <= n,
            snake@ + snake_from(variant@.skip(i as int), i == 0) == snake_case(variant@),
        decreases n - i,
    {
        let c = variant.get_char(i);
        let ghost rest = variant@.skip(i as int);
        assert(rest[0] == c);
        assert(rest.drop_first() =~= variant@.skip(i + 1));
        if 'A' <= c && c <= 'Z' && i != 0 {
            push_char(&mut snake, '_');
        }
        push_char(&mut snake, to_ascii_lower(c));
        i += 1;
    }
    assert(variant@.skip(n as int) =~= Seq::<char>::empty());
    snake
}

/// A container's `rename_all` convention, as serde names them.
#[derive(Clone, Copy, PartialEq, Eq, Structural)]
pub enum RenameRule {
    /// Names written as declared.
    Verbatim,
    LowerCase,
    UpperCase,
    PascalCase,
    CamelCase,
    SnakeCase,
    ScreamingSnakeCase,
    KebabCase,
    ScreamingKebabCase,
}

/// Every ASCII letter of `s` in upper case.
pub open spec fn upper_all(s: Seq<char>) -> Seq<char> {
    s.map_values(|c: char| ascii_upper(c))
}

/// Every ASCII letter of `s` in lower case.
pub open spec fn lower_all(s: Seq<char>) -> Seq<char> {
    s.map_values(|c: char| ascii_lower(c))
}

/// `s` with every `_` written `-`.
pub open spec fn dashed(s: Seq<char>) -> Seq<char> {
    s.map_values(|c: char| if c == '_' { '-' } else { c })
}

/// A `snake_case` field name under `rule`.
pub open spec fn rule_field(rule: RenameRule, field: Seq<char>) -> Seq<char> {
    match rule {
        RenameRule::Verbatim | RenameRule::LowerCase | RenameRule::SnakeCase => field,
        RenameRule::UpperCase | RenameRule::ScreamingSnakeCase => upper_all(field),
        RenameRule::PascalCase => pascal_case(field),
        RenameRule::CamelCase => camel_case(field),
        RenameRule::KebabCase => dashed(field),
        RenameRule::ScreamingKebabCase => dashed(upper_all(field)),
    }
}

/// A `PascalCase` variant name under `rule`.
pub open spec fn rule_variant(rule: RenameRule, variant: Seq<char>) -> Seq<char> {
    match rule {
        RenameRule::Verbatim | RenameRule::PascalCase => variant,
        RenameRule::LowerCase => lower_all(variant),
        RenameRule::UpperCase => upper_all(variant),
        RenameRule::CamelCase => lower_first(variant),
        RenameRule::SnakeCase => snake_case(variant),
        RenameRule::ScreamingSnakeCase => upper_all(snake_case(variant)),
        RenameRule::KebabCase => dashed(snake_case(variant)),
        RenameRule::ScreamingKebabCase => dashed(upper_all(snake_case(variant))),
    }
}

/// How one character of a name is rewritten, character by character.
#[derive(Clone, Copy, PartialEq, Eq, Structural)]
enum CharMap {
    Upper,
    Lower,
    Dash,
}

spec fn char_mapped(map: CharMap, c: char) -> char {
    match map {
        CharMap::Upper => ascii_upper(c),
        CharMap::Lower => ascii_lower(c),
        CharMap::Dash => if c == '_' {
            '-'
        } else {
            c
        },
    }
}

fn mapped_chars(s: &str, map: CharMap) -> (out: String)
    ensures
        out@ == s@.map_values(|c: char| char_mapped(map, c)),
{
    let mut out = String::new();
    let n = s.unicode_len();
    let mut i: usize = 0;
    while i < n
        invariant
            n == s@.len(),
            0 <= i <= n,
            out@ == s@.take(i as int).map_values(|c: char| char_mapped(map, c)),
        decreases n - i,
    {
        let c = s.get_char(i);
        let d = match map {
            CharMap::Upper => to_ascii_upper(c),
            CharMap::Lower => to_ascii_lower(c),
            CharMap::Dash => if c == '_' {
                '-'
            } else {
                c
            },
        };
        push_char(&mut out, d);
        assert(s@.take(i + 1).map_values(|c: char| char_mapped(map, c)) =~= s@.take(i as int).map_values(
            |c: char| char_mapped(map, c),
        ).push(d));
        i += 1;
    }
    assert(s@.take(n as int) =~= s@);
    out
}

fn upper_all_of(s: &str) -> (out: String)
    ensures
        out@ == upper_all(s@),
{
    let out = mapped_chars(s, CharMap::Upper);
    assert(out@ =~= upper_all(s@));
    out
}

fn lower_all_of(s: &str) -> (out: String)
    ensures
        out@ == lower_all(s@),
{
    let out = mapped_chars(s, CharMap::Lower);
    assert(out@ =~= lower_all(s@));
    out
}

fn dashed_of(s: &str) -> (out: String)
    ensures
        out@ == dashed(s@),
{
    let out = mapped_chars(s, CharMap::Dash);
    assert(out@ =~= dashed(s@));
    out
}

/// Whether two names are spelled alike.
fn same_name(a: &str, b: &str) -> (same: bool)
    ensures
        same == (a@ == b@),
{
    let n = a.unicode_len();
    if n != b.unicode_len() {
        return false;
    }
    let mut i: usize = 0;
    while i < n
        invariant
            n == a@.len(),
            n == b@.len(),
            0 <= i <= n,
            a@.take(i as int) == b@.take(i as int),
        decreases n - i,
    {
        if a.get_char(i) != b.get_char(i) {
            assert(a@[i as int] != b@[i as int]);
            return false;
        }
        assert(a@.take(i + 1) =~= a@.take(i as int).push(a@[i as int]));
        assert(b@.take(i + 1) =~= b@.take(i as int).push(b@[i as int]));
        i += 1;
    }
    assert(a@.take(n as int) =~= a@);
    assert(b@.take(n as int) =~= b@);
    true
}

/// The rule serde's `rename_all` names: `lowercase`, `UPPERCASE`, `PascalCase`, `camelCase`,
/// `snake_case`, `SCREAMING_SNAKE_CASE`, `kebab-case` or `SCREAMING-KEBAB-CASE`; names written as
/// declared without one, or for a name that is none of these.
pub open spec fn rule_named(rename_all: Option<Seq<char>>) -> RenameRule {
    match rename_all {
        None => RenameRule::Verbatim,
        Some(name) => if name == "lowercase"@ {
            RenameRule::LowerCase
        } else if name == "UPPERCASE"@ {
            RenameRule::UpperCase
        } else if name == "PascalCase"@ {
            RenameRule::PascalCase
        } else if name == "camelCase"@ {
            RenameRule::CamelCase
        } else if name == "snake_case"@ {
            RenameRule::SnakeCase
        } else if name == "SCREAMING_SNAKE_CASE"@ {
            RenameRule::ScreamingSnakeCase
        } else if name == "kebab-case"@ {
            RenameRule::KebabCase
        } else if name == "SCREAMING-KEBAB-CASE"@ {
            RenameRule::ScreamingKebabCase
        } else {
            RenameRule::Verbatim
        },
    }
}

impl RenameRule {
    /// The rule `rename_all` names: [`rule_named`].
    pub fn named(rename_all: Option<&str>) -> (rule: RenameRule)
        ensures
            rule == rule_named(match rename_all {
                Some(name) => Some(name@),
                None => None,
            }),
    {
        match rename_all {
            None => RenameRule::Verbatim,
            Some(name) => if same_name(name, "lowercase") {
                RenameRule::LowerCase
            } else if same_name(name, "UPPERCASE") {
                RenameRule::UpperCase
            } else if same_name(name, "PascalCase") {
                RenameRule::PascalCase
            } else if same_name(name, "camelCase") {
                RenameRule::CamelCase
            } else if same_name(name, "snake_case") {
                RenameRule::SnakeCase
            } else if same_name(name, "SCREAMING_SNAKE_CASE") {
                RenameRule::ScreamingSnakeCase
            } else if same_name(name, "kebab-case") {
                RenameRule::KebabCase
            } else if same_name(name, "SCREAMING-KEBAB-CASE") {
                RenameRule::ScreamingKebabCase
            } else {
                RenameRule::Verbatim
            },
        }
    }

    /// A `snake_case` field name under this rule: [`rule_field`].
    pub fn apply_to_field(&self, field: &str) -> (renamed: String)
        ensures
            renamed@ == rule_field(*self, field@),
    {
        match self {
            RenameRule::Verbatim | RenameRule::LowerCase | RenameRule::SnakeCase => field.to_owned(),
            RenameRule::UpperCase | RenameRule::ScreamingSnakeCase => upper_all_of(field),
            RenameRule::PascalCase => pascal_case_of_field(field),
            RenameRule::CamelCase => camel_case_of_field(field),
            RenameRule::KebabCase => dashed_of(field),
            RenameRule::ScreamingKebabCase => {
                let upper = upper_all_of(field);
                dashed_of(upper.as_str())
            },
        }
    }

    /// A `PascalCase` variant name under this rule: [`rule_variant`].
    pub fn apply_to_variant(&self, variant: &str) -> (renamed: String)
        ensures
            renamed@ == rule_variant(*self, variant@),
    {
        match self {
            RenameRule::Verbatim | RenameRule::PascalCase => variant.to_owned(),
            RenameRule::LowerCase => lower_all_of(variant),
            RenameRule::UpperCase => upper_all_of(variant),
            RenameRule::CamelCase => camel_case_of_variant(variant),
            RenameRule::SnakeCase => snake_case_of_variant(variant),
            RenameRule::ScreamingSnakeCase => {
                let snake = snake_case_of_variant(variant);
                upper_all_of(snake.as_str())
            },
            RenameRule::KebabCase => {
                let snake = snake_case_of_variant(variant);
                dashed_of(snake.as_str())
            },
            RenameRule::ScreamingKebabCase => {
                let snake = snake_case_of_variant(variant);
                let upper = upper_all_of(snake.as_str());
                dashed_of(upper.as_str())
            },
        }
    }
}

/// The key a field is written under: its own `rename` where it has one, else its Rust name under
/// the container's rule. An explicit rename always wins over the container's `rename_all`.
pub open spec fn wire_field_name_text(rust_name: Seq<char>, rename: Option<Seq<char>>, rule: RenameRule) -> Seq<char> {
    match rename {
        Some(renamed) => renamed,
        None => rule_field(rule, rust_name),
    }
}

pub fn wire_field_name(rust_name: &str, rename: Option<&str>, rule: RenameRule) -> (w: String)
    ensures
        w@ == wire_field_name_text(
            rust_name@,
            match rename {
                Some(r) => Some(r@),
                None => None,
            },
            rule,
        ),
{
    match rename {
        Some(renamed) => renamed.to_owned(),
        None => rule.apply_to_field(rust_name),
    }
}

/// The tag a variant is written under: its own `rename` where it has one, else its Rust name
/// under the enum's rule.
pub open spec fn wire_variant_name_text(rust_name: Seq<char>, rename: Option<Seq<char>>, rule: RenameRule) -> Seq<char> {
    match rename {
        Some(renamed) => renamed,
        None => rule_variant(rule, rust_name),
    }
}

pub fn wire_variant_name(rust_name: &str, rename: Option<&str>, rule: RenameRule) -> (w: String)
    ensures
        w@ == wire_variant_name_text(
            rust_name@,
            match rename {
                Some(r) => Some(r@),
                None => None,
            },
            rule,
        ),
{
    match rename {
        Some(renamed) => renamed.to_owned(),
        None => rule.apply_to_variant(rust_name),
    }
}

/// The name an item publishes under: its `name = ".."` override where it has one, else its Rust
/// ident.
pub fn item_export_name(rust_ident: &str, name_override: Option<&str>) -> (name: String)
    ensures
        name@ == match name_override {
            Some(n) => n@,
            None => rust_ident@,
        },
{
    match name_override {
        Some(n) => n.to_owned(),
        None => rust_ident.to_owned(),
    }
}

} // verus!
