//! The surfaces a build publishes, and the emitters for each.
//!
//! Which surfaces a build writes is a set of switches: each one turns on a language or a
//! validation layer the generated code is written for. [`Features`] holds them as values, so the
//! emitters read one description of the build rather than asking the compiler.
pub mod dart;
pub mod kotlin;
pub mod service_schema;

use vstd::prelude::*;

verus! {

/// The switches a build is made with.
#[derive(Clone, Copy, Debug, PartialEq, Eq, Structural)]
pub struct Features {
    pub serde: bool,
    pub zod: bool,
    pub jsonschema: bool,
    pub object_id: bool,
    pub typescript: bool,
    pub chrono: bool,
    pub dart: bool,
    pub kotlin: bool,
    /// A switch callers may read; this library writes no Swift surface.
    pub swift: bool,
}

/// `name` when `on`, nothing otherwise.
pub open spec fn named_if(on: bool, name: Seq<char>) -> Seq<Seq<char>> {
    if on {
        seq![name]
    } else {
        Seq::empty()
    }
}

/// The names of the switches that are on, in a fixed order: `serde`, `zod`, `jsonschema`,
/// `object_id`, `typescript`, `chrono`, `dart`.
pub open spec fn switched_on(features: Features) -> Seq<Seq<char>> {
    named_if(features.serde, "serde"@) + named_if(features.zod, "zod"@) + named_if(
        features.jsonschema,
        "jsonschema"@,
    ) + named_if(features.object_id, "object_id"@) + named_if(features.typescript, "typescript"@)
        + named_if(features.chrono, "chrono"@) + named_if(features.dart, "dart"@)
}

/// What a build reports of itself: the switches that are on, or `minimal` when none is.
pub open spec fn described(features: Features) -> Seq<Seq<char>> {
    if switched_on(features).len() == 0 {
        seq!["minimal"@]
    } else {
        switched_on(features)
    }
}

/// Appends `name` to `names` when `on`.
fn push_if(names: &mut Vec<&'static str>, on: bool, name: &'static str)
    ensures
        final(names)@.map_values(|s: &str| s@) == old(names)@.map_values(|s: &str| s@) + named_if(
            on,
            name@,
        ),
{
    let ghost before = names@.map_values(|s: &str| s@);
    if on {
        names.push(name);
        assert(names@.map_values(|s: &str| s@) =~= before + named_if(on, name@));
    } else {
        assert(names@.map_values(|s: &str| s@) =~= before + named_if(on, name@));
    }
}

impl Features {
    /// A description of the enabled switches, for debugging: their names in a fixed order, or
    /// `["minimal"]` when none is on.
    pub fn enabled_features(&self) -> (names: Vec<&'static str>)
        ensures
            names@.map_values(|s: &str| s@) == described(*self),
    {
        let mut names: Vec<&'static str> = Vec::new();
        assert(names@.map_values(|s: &str| s@) =~= Seq::<Seq<char>>::empty());
        push_if(&mut names, self.has_serde(), "serde");
        push_if(&mut names, self.has_zod(), "zod");
        push_if(&mut names, self.has_jsonschema(), "jsonschema");
        push_if(&mut names, self.has_object_id(), "object_id");
        push_if(&mut names, self.has_typescript(), "typescript");
        push_if(&mut names, self.has_chrono(), "chrono");
        push_if(&mut names, self.has_dart(), "dart");
        assert(names@.map_values(|s: &str| s@) =~= switched_on(*self));
        if names.len() == 0 {
            names.push("minimal");
            assert(names@.map_values(|s: &str| s@) =~= seq!["minimal"@]);
        }
        names
    }

    /// Whether the `chrono` switch is on.
    pub fn has_chrono(&self) -> (on: bool)
        ensures
            on == self.chrono,
    {
        self.chrono
    }

    /// Whether the `dart` switch is on.
    pub fn has_dart(&self) -> (on: bool)
        ensures
            on == self.dart,
    {
        self.dart
    }

    /// Whether the `jsonschema` switch is on.
    pub fn has_jsonschema(&self) -> (on: bool)
        ensures
            on == self.jsonschema,
    {
        self.jsonschema
    }

    /// Whether the `object_id` switch is on.
    pub fn has_object_id(&self) -> (on: bool)
        ensures
            on == self.object_id,
    {
        self.object_id
    }

    /// Whether the `serde` switch is on.
    pub fn has_serde(&self) -> (on: bool)
        ensures
            on == self.serde,
    {
        self.serde
    }

    /// Whether the `typescript` switch is on.
    pub fn has_typescript(&self) -> (on: bool)
        ensures
            on == self.typescript,
    {
        self.typescript
    }

    /// Whether the `zod` switch is on.
    pub fn has_zod(&self) -> (on: bool)
        ensures
            on == self.zod,
    {
        self.zod
    }

    /// Whether the `kotlin` switch is on.
    pub fn has_kotlin(&self) -> (on: bool)
        ensures
            on == self.kotlin,
    {
        self.kotlin
    }
}

} // verus!
