//! The Dart a struct or an alias publishes, and the module every item's Dart is published from.
//!
//! Each item publishes from a module of its own, `{item}_dart`, whose `dart_definition()` answers
//! the item's Dart; the item's name is registered first, so a later reference reads it back.
use crate::declaration::{
    kept_fields, kept_slots, only_slot, wire_slots, wraps_one_value, AliasDecl, NamedField, StructDecl, StructFields,
};
use crate::features::dart::tagged::{dart_generic_params, enum_dart_source, enum_text, generic_params_text, DartEnum};
use crate::features::dart::{
    class_body, class_body_text, codec_text, codec_view, dart_decode, dart_decode_expr, dart_encode,
    dart_encode_expr, dart_list, dart_type, dart_typename, decode_elements, encode_elements, generic_codec,
    ident_typedef, ident_typedef_text, record_text, register_dart_name, DartField, DartNames,
};
use crate::field_type::{FieldDef, FieldDefType, MapKeyWire};
use crate::rename_rule::{snake_case, snake_case_of_variant};
use crate::text::{join, rust_string_literal, string_literal, views};
use vstd::prelude::*;

verus! {

/// What a name registration leaves behind: the registrations before it, then this one.
pub open spec fn dart_registered(before: DartNames, after: DartNames, rust_ident: Seq<char>, export_name: Seq<
    char,
>) -> bool {
    &&& after.entries@.len() == before.entries@.len() + 1
    &&& after.entries@.drop_last() == before.entries@
    &&& after.entries@.last().0@ == rust_ident
    &&& after.entries@.last().1@ == export_name
}

/// A class wrapping one value, `fromJson`/`toJson` delegating to the value's own codec: what a
/// transparent newtype, a tuple struct and an alias publish. Its pieces are the value's Dart
/// type, its decode from `json` and its encode from `value`.
pub open spec fn value_wrapper_text(
    rust_ident: Seq<char>,
    export_name: Seq<char>,
    type_parameters: Seq<Seq<char>>,
    value_type: Seq<char>,
    decode: Seq<char>,
    encode: Seq<char>,
) -> Seq<char> {
    let generic_params = generic_params_text(type_parameters);
    let codec = codec_text(type_parameters);
    "class "@ + export_name + generic_params + " { const "@ + export_name + "(this.value); final "@ + value_type
        + " value; factory "@ + export_name + ".fromJson(dynamic json"@ + codec.1 + ") => "@ + export_name
        + "("@ + decode + "); dynamic toJson("@ + codec.2 + ") => "@ + encode + "; }"@ + ident_typedef_text(
        rust_ident,
        export_name,
        generic_params,
    )
}

/// The wrapper around one field's value.
pub open spec fn field_wrapper_text(
    rust_ident: Seq<char>,
    export_name: Seq<char>,
    type_parameters: Seq<Seq<char>>,
    value: FieldDef,
    names: DartNames,
) -> Seq<char> {
    value_wrapper_text(
        rust_ident,
        export_name,
        type_parameters,
        dart_type(value, names),
        dart_decode(value, "json"@, names),
        dart_encode(value, "value"@, names),
    )
}

/// The wrapper around the Dart record a tuple struct's wire slots make.
pub open spec fn tuple_wrapper_text(
    rust_ident: Seq<char>,
    export_name: Seq<char>,
    type_parameters: Seq<Seq<char>>,
    slots: Seq<FieldDef>,
    names: DartNames,
) -> Seq<char> {
    value_wrapper_text(
        rust_ident,
        export_name,
        type_parameters,
        record_text(join(dart_list(slots, names), ", "@), slots.len()),
        record_text(join(decode_elements(slots, "json"@, names), ", "@), slots.len()),
        "["@ + join(encode_elements(slots, "value"@, names), ", "@) + "]"@,
    )
}

/// A struct with named fields, or none: its class, then the `typedef` a renamed one re-publishes
/// under its Rust ident.
pub open spec fn class_text(
    rust_ident: Seq<char>,
    export_name: Seq<char>,
    type_parameters: Seq<Seq<char>>,
    fields: Seq<DartField>,
    names: DartNames,
) -> Seq<char> {
    let generic_params = generic_params_text(type_parameters);
    class_body_text(export_name, generic_params, fields, codec_text(type_parameters), names) + ident_typedef_text(
        rust_ident,
        export_name,
        generic_params,
    )
}

/// A named field as the Dart surface reads it: required unless serde may leave its key out.
pub open spec fn dart_field_of(field: NamedField) -> DartField {
    DartField {
        field_def: field.field_def,
        flatten: field.flatten,
        required: !field.omits_key,
        rust_name: field.rust_name,
        wire_name: field.wire_name,
    }
}

/// The Dart fields of the named fields that reach the wire, in order.
pub open spec fn dart_fields_of(fields: Seq<NamedField>) -> Seq<DartField> {
    kept_fields(fields).map_values(|field: NamedField| dart_field_of(field))
}

/// The Dart fields of the named fields that reach the wire, in order.
pub fn collect_dart_fields(fields: Vec<NamedField>) -> (collected: Vec<DartField>)
    ensures
        collected@ == dart_fields_of(fields@),
{
    let ghost all = fields@;
    let mut rest = fields;
    let count = rest.len();
    assert(all.len() == count);
    let mut collected: Vec<DartField> = Vec::new();
    let mut i: usize = 0;
    while rest.len() > 0
        invariant
            i + rest@.len() == all.len(),
            all.len() <= usize::MAX,
            rest@ == all.skip(i as int),
            collected@ == dart_fields_of(all.take(i as int)),
        decreases rest@.len(),
    {
        let field = rest.remove(0);
        let ghost before = all.take(i as int);
        assert(all.take(i + 1).drop_last() =~= before);
        assert(all.take(i + 1).last() == all[i as int]);
        if !field.absent_from_wire {
            let ghost entry = dart_field_of(field);
            collected.push(
                DartField {
                    field_def: field.field_def,
                    flatten: field.flatten,
                    required: !field.omits_key,
                    rust_name: field.rust_name,
                    wire_name: field.wire_name,
                },
            );
            assert(kept_fields(before).push(all[i as int]).map_values(|f: NamedField| dart_field_of(f))
                =~= kept_fields(before).map_values(|f: NamedField| dart_field_of(f)).push(entry));
        }
        assert(rest@ =~= all.skip(i + 1));
        i += 1;
    }
    assert(all.take(i as int) =~= all);
    collected
}

/// The Dart a struct publishes: the wrapper of its one value when it [`wraps_one_value`], the
/// wrapper of the record its wire slots make when it is any other tuple struct, else its class.
pub open spec fn struct_text(decl: StructDecl, names: DartNames) -> Seq<char> {
    let rust_ident = decl.rust_ident@;
    let export_name = decl.export_name@;
    let type_parameters = views(decl.type_parameters@);
    match decl.fields {
        StructFields::Unnamed(slots) => if wraps_one_value(decl) {
            field_wrapper_text(rust_ident, export_name, type_parameters, slots@[0].field, names)
        } else {
            tuple_wrapper_text(rust_ident, export_name, type_parameters, kept_slots(slots@), names)
        },
        StructFields::Named(fields) => class_text(
            rust_ident,
            export_name,
            type_parameters,
            dart_fields_of(fields@),
            names,
        ),
        StructFields::Unit => class_text(rust_ident, export_name, type_parameters, Seq::empty(), names),
    }
}

/// The module an item's Dart is published from, as Rust source: `{item}_dart`, whose
/// `dart_definition()` answers the source.
pub open spec fn dart_module_text(rust_ident: Seq<char>, dart_source: Seq<char>) -> Seq<char> {
    "pub mod "@ + snake_case(rust_ident) + "_dart {\npub fn dart_definition() -> String {\n"@
        + rust_string_literal(dart_source) + ".to_owned()\n}\n}\n"@
}

/// Publishes `dart_source` from the item's module.
pub fn dart_module(rust_ident: &str, dart_source: &str) -> (module: String)
    ensures
        module@ == dart_module_text(rust_ident@, dart_source@),
{
    let mut module = String::from_str("pub mod ");
    module.append(snake_case_of_variant(rust_ident).as_str());
    module.append("_dart {\npub fn dart_definition() -> String {\n");
    module.append(string_literal(dart_source).as_str());
    module.append(".to_owned()\n}\n}\n");
    module
}

fn field_wrapper(
    rust_ident: &str,
    export_name: &str,
    type_parameters: &Vec<String>,
    value: &FieldDef,
    names: &DartNames,
) -> (text: String)
    ensures
        text@ == field_wrapper_text(rust_ident@, export_name@, views(type_parameters@), *value, *names),
{
    let generic_params = dart_generic_params(type_parameters);
    let codec = generic_codec(type_parameters);
    let value_type = dart_typename(value, names);
    let decode = dart_decode_expr(value, "json", names);
    let encode = dart_encode_expr(value, "value", names);
    let mut text = String::from_str("class ");
    text.append(export_name);
    text.append(generic_params.as_str());
    text.append(" { const ");
    text.append(export_name);
    text.append("(this.value); final ");
    text.append(value_type.as_str());
    text.append(" value; factory ");
    text.append(export_name);
    text.append(".fromJson(dynamic json");
    text.append(codec.from_json_params.as_str());
    text.append(") => ");
    text.append(export_name);
    text.append("(");
    text.append(decode.as_str());
    text.append("); dynamic toJson(");
    text.append(codec.to_json_params.as_str());
    text.append(") => ");
    text.append(encode.as_str());
    text.append("; }");
    text.append(ident_typedef(rust_ident, export_name, generic_params.as_str()).as_str());
    text
}

fn tuple_wrapper(
    rust_ident: &str,
    export_name: &str,
    type_parameters: &Vec<String>,
    slots: Vec<FieldDef>,
    names: &DartNames,
) -> (text: String)
    ensures
        text@ == tuple_wrapper_text(rust_ident@, export_name@, views(type_parameters@), slots@, *names),
{
    let ghost wire = slots@;
    let tuple = FieldDef {
        field_type: FieldDefType::Tuple(slots),
        array_depth: 0,
        nullable_levels: Vec::new(),
        optional: false,
        as_number: false,
        nullable: false,
        map_key_wire: MapKeyWire::Named,
        parameter_shape: false,
    };
    proof {
        let n = *names;
        let value_type = record_text(join(dart_list(wire, n), ", "@), wire.len());
        assert(crate::features::dart::dart_scalar(tuple, n) == value_type);
        assert(crate::features::dart::dart_at(tuple, 0, n) == value_type);
        assert(crate::features::dart::dart_base_text(tuple, n) == value_type);
        assert(dart_type(tuple, n) == value_type);
        let decode = record_text(join(decode_elements(wire, "json"@, n), ", "@), wire.len());
        assert(crate::features::dart::dart_decode_at_text(tuple, 0, "json"@, n) == decode);
        assert(dart_decode(tuple, "json"@, n) == decode);
        let encode = "["@ + join(encode_elements(wire, "value"@, n), ", "@) + "]"@;
        assert(crate::features::dart::dart_encode_at_text(tuple, 0, "value"@, n) == encode);
        assert(dart_encode(tuple, "value"@, n) == encode);
    }
    field_wrapper(rust_ident, export_name, type_parameters, &tuple, names)
}

fn struct_class(
    rust_ident: &str,
    export_name: &str,
    type_parameters: &Vec<String>,
    fields: &Vec<DartField>,
    names: &DartNames,
) -> (text: String)
    ensures
        text@ == class_text(rust_ident@, export_name@, views(type_parameters@), fields@, *names),
{
    let generic_params = dart_generic_params(type_parameters);
    let codec = generic_codec(type_parameters);
    proof {
        assert(codec_view(codec) == codec_text(views(type_parameters@)));
    }
    let mut text = class_body(export_name, generic_params.as_str(), fields, &codec, names);
    text.append(ident_typedef(rust_ident, export_name, generic_params.as_str()).as_str());
    text
}

/// Registers the struct's published name, then renders it as [`struct_text`] says.
pub fn struct_dart_source(decl: StructDecl, names: &mut DartNames) -> (text: String)
    ensures
        dart_registered(*old(names), *final(names), decl.rust_ident@, decl.export_name@),
        text@ == struct_text(decl, *final(names)),
{
    let ghost whole = decl;
    let one_value = match &decl.fields {
        StructFields::Unnamed(slots) => decl.transparent && slots.len() == 1,
        _ => false,
    };
    assert(one_value == wraps_one_value(whole));
    let StructDecl { rust_ident, export_name, type_parameters, transparent: _, fields } = decl;
    register_dart_name(names, rust_ident.as_str(), export_name.as_str());
    match fields {
        StructFields::Unnamed(slots) => if one_value {
            let value = only_slot(slots);
            field_wrapper(rust_ident.as_str(), export_name.as_str(), &type_parameters, &value, names)
        } else {
            let kept = wire_slots(slots);
            tuple_wrapper(rust_ident.as_str(), export_name.as_str(), &type_parameters, kept, names)
        },
        StructFields::Named(named) => {
            let collected = collect_dart_fields(named);
            struct_class(rust_ident.as_str(), export_name.as_str(), &type_parameters, &collected, names)
        },
        StructFields::Unit => {
            let none: Vec<DartField> = Vec::new();
            struct_class(rust_ident.as_str(), export_name.as_str(), &type_parameters, &none, names)
        },
    }
}

/// An item the Dart surface publishes from: a struct, a type alias, an enum, or anything else
/// (which publishes nothing).
pub enum DartItem {
    Struct(StructDecl),
    Alias(AliasDecl),
    Enum(DartEnum),
    Other,
}

/// The Rust ident and the published name an item registers, or `None` for one that publishes
/// nothing.
pub open spec fn dart_item_names(item: DartItem) -> Option<(Seq<char>, Seq<char>)> {
    match item {
        DartItem::Struct(decl) => Some((decl.rust_ident@, decl.export_name@)),
        DartItem::Alias(alias) => Some((alias.rust_ident@, alias.export_name@)),
        DartItem::Enum(item) => Some((item.rust_ident@, item.export_name@)),
        DartItem::Other => None,
    }
}

/// The Dart an item publishes, under the names registered once its own is: an alias wraps its
/// target's value as a transparent newtype does.
pub open spec fn dart_item_text(item: DartItem, names: DartNames) -> Seq<char> {
    match item {
        DartItem::Struct(decl) => struct_text(decl, names),
        DartItem::Alias(alias) => field_wrapper_text(
            alias.rust_ident@,
            alias.export_name@,
            views(alias.type_parameters@),
            alias.target,
            names,
        ),
        DartItem::Enum(item) => enum_text(item, names),
        DartItem::Other => Seq::empty(),
    }
}

/// The module `item` publishes its Dart from, after registering the name it publishes under;
/// an item that is neither a struct, an alias nor an enum publishes nothing and registers
/// nothing.
pub fn dart_schema_dispatch(item: DartItem, names: &mut DartNames) -> (module: String)
    ensures
        match dart_item_names(item) {
            Some((rust_ident, export_name)) => {
                &&& dart_registered(*old(names), *final(names), rust_ident, export_name)
                &&& module@ == dart_module_text(rust_ident, dart_item_text(item, *final(names)))
            },
            None => final(names).entries@ == old(names).entries@ && module@.len() == 0,
        },
{
    match item {
        DartItem::Struct(decl) => {
            let rust_ident = decl.rust_ident.clone();
            let source = struct_dart_source(decl, names);
            dart_module(rust_ident.as_str(), source.as_str())
        },
        DartItem::Alias(alias) => {
            register_dart_name(names, alias.rust_ident.as_str(), alias.export_name.as_str());
            let source = field_wrapper(
                alias.rust_ident.as_str(),
                alias.export_name.as_str(),
                &alias.type_parameters,
                &alias.target,
                names,
            );
            dart_module(alias.rust_ident.as_str(), source.as_str())
        },
        DartItem::Enum(item) => {
            register_dart_name(names, item.rust_ident.as_str(), item.export_name.as_str());
            let source = enum_dart_source(&item, names);
            dart_module(item.rust_ident.as_str(), source.as_str())
        },
        DartItem::Other => String::new(),
    }
}

} // verus!
