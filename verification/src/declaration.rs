//! What a struct or a type alias declares, as the Dart and Kotlin surfaces read it: the name it
//! publishes under, its type parameters, and the shape of its fields.
use crate::field_type::FieldDef;
use crate::rename_rule::{wire_field_name, wire_field_name_text, RenameRule};
use vstd::prelude::*;

verus! {

/// One slot of a tuple struct: its type, and whether serde leaves it off the wire.
pub struct TupleSlot {
    pub field: FieldDef,
    pub skipped: bool,
}

/// One named field: its Rust name, the key it is written under once serde's renaming has had
/// its say, its type, whether serde leaves it off the wire in both directions, whether serde
/// may leave its key out when writing, and whether it is flattened into its container.
pub struct NamedField {
    pub rust_name: String,
    pub wire_name: String,
    pub field_def: FieldDef,
    pub absent_from_wire: bool,
    pub omits_key: bool,
    pub flatten: bool,
}

impl NamedField {
    /// A field as declared: its key is its own `rename` where it has one, else its Rust name
    /// under the container's rule.
    pub fn declared(
        rust_name: String,
        rename: Option<String>,
        rule: RenameRule,
        field_def: FieldDef,
        absent_from_wire: bool,
        omits_key: bool,
        flatten: bool,
    ) -> (field: NamedField)
        ensures
            field.rust_name@ == rust_name@,
            field.wire_name@ == wire_field_name_text(
                rust_name@,
                match rename {
                    Some(r) => Some(r@),
                    None => None,
                },
                rule,
            ),
            field.field_def == field_def,
            field.absent_from_wire == absent_from_wire,
            field.omits_key == omits_key,
            field.flatten == flatten,
    {
        let wire_name = match &rename {
            Some(r) => wire_field_name(rust_name.as_str(), Some(r.as_str()), rule),
            None => wire_field_name(rust_name.as_str(), None, rule),
        };
        NamedField { rust_name, wire_name, field_def, absent_from_wire, omits_key, flatten }
    }
}

/// The fields a struct declares: none at all, named fields, or tuple slots.
pub enum StructFields {
    Unit,
    Named(Vec<NamedField>),
    Unnamed(Vec<TupleSlot>),
}

/// A struct: its Rust ident, the name it publishes under, its type parameters, whether it is
/// declared `#[serde(transparent)]`, and its fields.
pub struct StructDecl {
    pub rust_ident: String,
    pub export_name: String,
    pub type_parameters: Vec<String>,
    pub transparent: bool,
    pub fields: StructFields,
}

/// A `type X = …;` alias: its Rust ident, the name it publishes under, its type parameters, and
/// its target.
pub struct AliasDecl {
    pub rust_ident: String,
    pub export_name: String,
    pub type_parameters: Vec<String>,
    pub target: FieldDef,
}

/// Whether a struct publishes as the one value it wraps: a transparent struct of exactly one
/// tuple slot.
pub open spec fn wraps_one_value(decl: StructDecl) -> bool {
    decl.transparent && match decl.fields {
        StructFields::Unnamed(slots) => slots@.len() == 1,
        _ => false,
    }
}

/// The types of the slots that reach the wire, in order.
pub open spec fn kept_slots(slots: Seq<TupleSlot>) -> Seq<FieldDef>
    decreases slots.len(),
{
    if slots.len() == 0 {
        Seq::empty()
    } else if slots.last().skipped {
        kept_slots(slots.drop_last())
    } else {
        kept_slots(slots.drop_last()).push(slots.last().field)
    }
}

/// The types of the slots that reach the wire, in order.
pub fn wire_slots(slots: Vec<TupleSlot>) -> (kept: Vec<FieldDef>)
    ensures
        kept@ == kept_slots(slots@),
{
    let ghost all = slots@;
    let mut rest = slots;
    let count = rest.len();
    assert(all.len() == count);
    let mut kept: Vec<FieldDef> = Vec::new();
    let mut i: usize = 0;
    while rest.len() > 0
        invariant
            i + rest@.len() == all.len(),
            all.len() <= usize::MAX,
            rest@ == all.skip(i as int),
            kept@ == kept_slots(all.take(i as int)),
        decreases rest@.len(),
    {
        let slot = rest.remove(0);
        assert(all.take(i + 1).drop_last() =~= all.take(i as int));
        assert(all.take(i + 1).last() == all[i as int]);
        if !slot.skipped {
            kept.push(slot.field);
        }
        assert(rest@ =~= all.skip(i + 1));
        i += 1;
    }
    assert(all.take(i as int) =~= all);
    kept
}

/// The named fields that reach the wire, in order.
pub open spec fn kept_fields(fields: Seq<NamedField>) -> Seq<NamedField>
    decreases fields.len(),
{
    if fields.len() == 0 {
        Seq::empty()
    } else if fields.last().absent_from_wire {
        kept_fields(fields.drop_last())
    } else {
        kept_fields(fields.drop_last()).push(fields.last())
    }
}

/// The one slot of a struct that [`wraps_one_value`].
pub(crate) fn only_slot(slots: Vec<TupleSlot>) -> (value: FieldDef)
    requires
        slots@.len() == 1,
    ensures
        value == slots@[0].field,
{
    let mut rest = slots;
    let slot = rest.remove(0);
    slot.field
}

} // verus!
