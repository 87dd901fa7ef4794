//! Which Kotlin an item publishes: a struct by its shape, an alias as a `typealias`, an enum by
//! its tagging; each from a module of its own.
use crate::declaration::{
    kept_fields, kept_slots, only_slot, wire_slots, wraps_one_value, AliasDecl, NamedField, StructDecl, StructFields,
};
use crate::features::kotlin::enums::{enum_kotlin_source, enum_text, KotlinEnum};
use crate::features::kotlin::items::{
    kotlin_module, module_text, registered, struct_kotlin_source, struct_parts_text, tuple_struct_parts_text,
    tuple_struct_source, value_class_source, value_class_text, KotlinStruct, KotlinTupleStruct, KotlinValueStruct,
};
use crate::features::kotlin::{
    angled_text, ident_typealias, ident_typealias_text, kotlin_generic_params, kotlin_typename, kt_type,
    register_kotlin_name, tuples_of, KotlinField, KotlinNames, TupleWrappers, Tuples,
};
use crate::field_type::FieldDef;
use crate::text::views;
use vstd::prelude::*;

verus! {

/// `typealias {name}<T> = {target};`, then the `typealias` a renamed alias re-publishes under
/// its Rust ident.
pub open spec fn alias_text(alias: AliasDecl, names: KotlinNames, st: Tuples) -> (Seq<char>, Tuples) {
    let generic_params = angled_text(views(alias.type_parameters@));
    let (target, s1) = kt_type(alias.target, names, st);
    (
        "typealias "@ + alias.export_name@ + generic_params + " = "@ + target + ";"@ + ident_typealias_text(
            alias.rust_ident@,
            alias.export_name@,
            generic_params,
        ),
        s1,
    )
}

/// Registers the alias's published name, then renders it.
pub fn alias_kotlin_source(alias: &AliasDecl, names: &mut KotlinNames, tuples: &mut TupleWrappers) -> (text:
    String)
    ensures
        registered(*old(names), *final(names), alias.rust_ident@, alias.export_name@),
        (text@, tuples_of(*final(tuples))) == alias_text(*alias, *final(names), tuples_of(*old(tuples))),
{
    register_kotlin_name(names, alias.rust_ident.as_str(), alias.export_name.as_str());
    let generic_params = kotlin_generic_params(&alias.type_parameters);
    let target = kotlin_typename(&alias.target, names, tuples);
    let mut text = String::from_str("typealias ");
    text.append(alias.export_name.as_str());
    text.append(generic_params.as_str());
    text.append(" = ");
    text.append(target.as_str());
    text.append(";");
    text.append(
        ident_typealias(alias.rust_ident.as_str(), alias.export_name.as_str(), generic_params.as_str()).as_str(),
    );
    text
}

/// A named field as the Kotlin surface reads it: a field serde may leave out when writing is
/// made optional, since kotlinx has no other spelling for an absent key.
pub open spec fn kotlin_field_of(field: NamedField) -> KotlinField {
    KotlinField {
        field_def: if field.omits_key && !field.field_def.optional {
            FieldDef { optional: true, ..field.field_def }
        } else {
            field.field_def
        },
        flatten: field.flatten,
        rust_name: field.rust_name,
        wire_name: field.wire_name,
    }
}

/// The Kotlin fields of the named fields that reach the wire, in order.
pub open spec fn kotlin_fields_of(fields: Seq<NamedField>) -> Seq<KotlinField> {
    kept_fields(fields).map_values(|field: NamedField| kotlin_field_of(field))
}

/// The Kotlin fields of the named fields that reach the wire, in order.
pub fn collect_kotlin_fields(fields: Vec<NamedField>) -> (collected: Vec<KotlinField>)
    ensures
        collected@ == kotlin_fields_of(fields@),
{
    let ghost all = fields@;
    let mut rest = fields;
    let count = rest.len();
    assert(all.len() == count);
    let mut collected: Vec<KotlinField> = Vec::new();
    let mut i: usize = 0;
    while rest.len() > 0
        invariant
            i + rest@.len() == all.len(),
            all.len() <= usize::MAX,
            rest@ == all.skip(i as int),
            collected@ == kotlin_fields_of(all.take(i as int)),
        decreases rest@.len(),
    {
        let field = rest.remove(0);
        let ghost before = all.take(i as int);
        assert(all.take(i + 1).drop_last() =~= before);
        assert(all.take(i + 1).last() == all[i as int]);
        if !field.absent_from_wire {
            let ghost entry = kotlin_field_of(field);
            let mut field_def = field.field_def;
            if field.omits_key && !field_def.optional {
                field_def.optional = true;
            }
            collected.push(
                KotlinField { field_def, flatten: field.flatten, rust_name: field.rust_name, wire_name: field.wire_name },
            );
            assert(kept_fields(before).push(all[i as int]).map_values(|f: NamedField| kotlin_field_of(f))
                =~= kept_fields(before).map_values(|f: NamedField| kotlin_field_of(f)).push(entry));
        }
        assert(rest@ =~= all.skip(i + 1));
        i += 1;
    }
    assert(all.take(i as int) =~= all);
    collected
}

/// The Kotlin a struct publishes: a value class over its one value when it
/// [`wraps_one_value`], a data class over its wire slots when it is any other tuple struct,
/// else the class of its named fields (an `object` for a unit struct).
pub open spec fn struct_decl_text(decl: StructDecl, names: KotlinNames, st: Tuples) -> (
    Seq<char>,
    Tuples,
) {
    let rust_ident = decl.rust_ident@;
    let export_name = decl.export_name@;
    let type_parameters = views(decl.type_parameters@);
    match decl.fields {
        StructFields::Unnamed(slots) => if wraps_one_value(decl) {
            value_class_text(
                KotlinValueStruct {
                    rust_ident: decl.rust_ident,
                    export_name: decl.export_name,
                    type_parameters: decl.type_parameters,
                    value: slots@[0].field,
                },
                names,
                st,
            )
        } else {
            tuple_struct_parts_text(rust_ident, export_name, type_parameters, kept_slots(slots@), names, st)
        },
        StructFields::Named(fields) => struct_parts_text(
            rust_ident,
            export_name,
            type_parameters,
            false,
            kotlin_fields_of(fields@),
            names,
            st,
        ),
        StructFields::Unit => struct_parts_text(rust_ident, export_name, type_parameters, true, Seq::empty(), names, st),
    }
}

/// Registers the struct's published name, then renders it as [`struct_decl_text`] says.
pub fn struct_decl_kotlin_source(
    decl: StructDecl,
    names: &mut KotlinNames,
    tuples: &mut TupleWrappers,
) -> (text: String)
    ensures
        registered(*old(names), *final(names), decl.rust_ident@, decl.export_name@),
        (text@, tuples_of(*final(tuples))) == struct_decl_text(decl, *final(names), tuples_of(*old(tuples))),
{
    let ghost whole = decl;
    let one_value = match &decl.fields {
        StructFields::Unnamed(slots) => decl.transparent && slots.len() == 1,
        _ => false,
    };
    assert(one_value == wraps_one_value(whole));
    let StructDecl { rust_ident, export_name, type_parameters, transparent: _, fields } = decl;
    match fields {
        StructFields::Unnamed(slots) => if one_value {
            let item = KotlinValueStruct { rust_ident, export_name, type_parameters, value: only_slot(slots) };
            value_class_source(&item, names, tuples)
        } else {
            let item = KotlinTupleStruct { rust_ident, export_name, type_parameters, slots: wire_slots(slots) };
            tuple_struct_source(&item, names, tuples)
        },
        StructFields::Named(named) => {
            let collected = collect_kotlin_fields(named);
            let item = KotlinStruct { rust_ident, export_name, type_parameters, unit: false, fields: collected };
            struct_kotlin_source(&item, names, tuples)
        },
        StructFields::Unit => {
            let item = KotlinStruct { rust_ident, export_name, type_parameters, unit: true, fields: Vec::new() };
            struct_kotlin_source(&item, names, tuples)
        },
    }
}

/// An item the Kotlin surface publishes from: a struct, a type alias, an enum (with its Rust
/// ident), or anything else (which publishes nothing).
pub enum KotlinItem {
    Struct(StructDecl),
    Alias(AliasDecl),
    Enum(String, KotlinEnum),
    Other,
}

/// The Rust ident and the published name an item registers, or `None` for one that publishes
/// nothing.
pub open spec fn kotlin_item_names(item: KotlinItem) -> Option<(Seq<char>, Seq<char>)> {
    match item {
        KotlinItem::Struct(decl) => Some((decl.rust_ident@, decl.export_name@)),
        KotlinItem::Alias(alias) => Some((alias.rust_ident@, alias.export_name@)),
        KotlinItem::Enum(rust_ident, item) => Some((rust_ident@, item.export_name@)),
        KotlinItem::Other => None,
    }
}

/// The Kotlin an item publishes, under the names registered once its own is, and the tuple
/// wrappers after it.
pub open spec fn kotlin_item_text(item: KotlinItem, names: KotlinNames, st: Tuples) -> (Seq<char>, Tuples) {
    match item {
        KotlinItem::Struct(decl) => struct_decl_text(decl, names, st),
        KotlinItem::Alias(alias) => alias_text(alias, names, st),
        KotlinItem::Enum(_, item) => enum_text(item, names, st),
        KotlinItem::Other => (Seq::empty(), st),
    }
}

/// The module `item` publishes its Kotlin from, after registering the name it publishes under:
/// the wrappers its rendering queued come first and are drained. An item that is neither a
/// struct, an alias nor an enum publishes nothing and changes nothing.
pub fn kotlin_schema_dispatch(item: KotlinItem, names: &mut KotlinNames, tuples: &mut TupleWrappers) -> (module:
    String)
    ensures
        match kotlin_item_names(item) {
            Some((rust_ident, export_name)) => {
                let (source, st) = kotlin_item_text(item, *final(names), tuples_of(*old(tuples)));
                &&& registered(*old(names), *final(names), rust_ident, export_name)
                &&& module@ == module_text(rust_ident, st.1, source)
                &&& tuples_of(*final(tuples)) == (st.0, Seq::<Seq<char>>::empty())
            },
            None => {
                &&& final(names).entries@ == old(names).entries@
                &&& tuples_of(*final(tuples)) == tuples_of(*old(tuples))
                &&& module@.len() == 0
            },
        },
{
    match item {
        KotlinItem::Struct(decl) => {
            let rust_ident = decl.rust_ident.clone();
            let source = struct_decl_kotlin_source(decl, names, tuples);
            kotlin_module(rust_ident.as_str(), source.as_str(), tuples)
        },
        KotlinItem::Alias(alias) => {
            let source = alias_kotlin_source(&alias, names, tuples);
            kotlin_module(alias.rust_ident.as_str(), source.as_str(), tuples)
        },
        KotlinItem::Enum(rust_ident, item) => {
            register_kotlin_name(names, rust_ident.as_str(), item.export_name.as_str());
            let source = enum_kotlin_source(&item, names, tuples);
            kotlin_module(rust_ident.as_str(), source.as_str(), tuples)
        },
        KotlinItem::Other => String::new(),
    }
}

} // verus!
