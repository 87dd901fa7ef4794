//! The Dart an enum with payloads publishes: a `sealed` base class whose `fromJson` dispatches on
//! the wire tag (or, for an untagged enum, tries each variant in turn), and one subclass per
//! variant.
//!
//! Serde writes a tagged variant in one of three shapes. Internal tagging (`tag` alone) merges the
//! tag key into the payload's own object; adjacent tagging (`tag` and `content`) writes the tag
//! beside a content key holding the payload; external tagging (neither) writes an object whose
//! one key is the tag, or, for a unit variant, the bare tag string.
use crate::features::dart::{
    class_body_content, class_body_content_text, class_body_parts, codec_text, codec_view, dart_decode,
    dart_decode_expr, dart_encode, dart_encode_expr, dart_type, dart_typename, generic_codec,
    ident_typedef, ident_typedef_text, parts_of, DartField, DartNames, GenericCodec,
};
use crate::field_type::FieldDef;
use crate::rename_rule::{camel_case_of_variant, lower_first, wire_variant_name, wire_variant_name_text, RenameRule};
use crate::text::{join, join_all, views};
use vstd::prelude::*;

verus! {

/// What a variant carries.
pub enum VariantPayload {
    /// Nothing.
    Unit,
    /// Named fields, written as an object.
    Named(Vec<DartField>),
    /// One value, written as itself.
    Value(Box<FieldDef>),
}

/// How an enum's variants carry their tag on the wire.
pub struct TagShape {
    /// The key the payload sits under, beside the tag (adjacent tagging).
    pub content_key: Option<String>,
    /// Whether the tag key sits inside the payload's own object (internal tagging).
    pub merge_tag_into_object: bool,
    /// The key the tag is written under.
    pub tag_key: String,
}

/// Optional text, as its characters.
pub open spec fn opt_text(text: Option<String>) -> Option<Seq<char>> {
    match text {
        Some(t) => Some(t@),
        None => None,
    }
}

/// The shape as plain text: the content key, the merge flag, and the tag key.
pub open spec fn shape_view(shape: TagShape) -> (Option<Seq<char>>, bool, Seq<char>) {
    (opt_text(shape.content_key), shape.merge_tag_into_object, shape.tag_key@)
}

/// The expression a tagged variant's payload is read from: the content key under adjacent
/// tagging, `json` itself under internal tagging, `map['{wire_tag}']` under external tagging.
pub open spec fn payload_json_text(wire_tag: Seq<char>, shape: (Option<Seq<char>>, bool, Seq<char>)) -> Seq<
    char,
> {
    match shape.0 {
        Some(content) => "json['"@ + content + "']"@,
        None => if shape.1 {
            "json"@
        } else {
            "map['"@ + wire_tag + "']"@
        },
    }
}

fn tagged_payload_json_expr(wire_tag: &str, shape: &TagShape) -> (expr: String)
    ensures
        expr@ == payload_json_text(wire_tag@, shape_view(*shape)),
{
    match &shape.content_key {
        Some(content) => {
            let mut expr = String::from_str("json['");
            expr.append(content.as_str());
            expr.append("']");
            expr
        },
        None => {
            if shape.merge_tag_into_object {
                String::from_str("json")
            } else {
                let mut expr = String::from_str("map['");
                expr.append(wire_tag);
                expr.append("']");
                expr
            }
        },
    }
}

/// A variant's `toJson` where its own object does not carry the tag: the tag and the content key
/// around the encoding under adjacent tagging, the tag alone for a unit variant there, the tag as
/// the one key under external tagging, and the bare tag string for external tagging's unit.
pub open spec fn wrap_encode_text(
    shape: (Option<Seq<char>>, bool, Seq<char>),
    wire_tag: Seq<char>,
    own_encode: Option<Seq<char>>,
) -> Seq<char> {
    match (shape.0, own_encode) {
        (Some(content), Some(encode)) => "{ '"@ + shape.2 + "': '"@ + wire_tag + "', '"@ + content
            + "': "@ + encode + " }"@,
        (Some(_), None) => "{ '"@ + shape.2 + "': '"@ + wire_tag + "' }"@,
        (None, Some(encode)) => "{ '"@ + wire_tag + "': "@ + encode + " }"@,
        (None, None) => "'"@ + wire_tag + "'"@,
    }
}

fn tagged_wrap_encode(shape: &TagShape, wire_tag: &str, own_encode: Option<&str>) -> (text: String)
    ensures
        text@ == wrap_encode_text(
            shape_view(*shape),
            wire_tag@,
            match own_encode {
                Some(e) => Some(e@),
                None => None,
            },
        ),
{
    match (&shape.content_key, own_encode) {
        (Some(content), Some(encode)) => {
            let mut text = String::from_str("{ '");
            text.append(shape.tag_key.as_str());
            text.append("': '");
            text.append(wire_tag);
            text.append("', '");
            text.append(content.as_str());
            text.append("': ");
            text.append(encode);
            text.append(" }");
            text
        },
        (Some(_), None) => {
            let mut text = String::from_str("{ '");
            text.append(shape.tag_key.as_str());
            text.append("': '");
            text.append(wire_tag);
            text.append("' }");
            text
        },
        (None, Some(encode)) => {
            let mut text = String::from_str("{ '");
            text.append(wire_tag);
            text.append("': ");
            text.append(encode);
            text.append(" }");
            text
        },
        (None, None) => {
            let mut text = String::from_str("'");
            text.append(wire_tag);
            text.append("'");
            text
        },
    }
}

/// The opening of a variant's subclass: `class Sub<T> extends Base<T> { `.
pub open spec fn class_head_text(subclass_name: Seq<char>, generic_params: Seq<char>, export_name: Seq<
    char,
>) -> Seq<char> {
    "class "@ + subclass_name + generic_params + " extends "@ + export_name + generic_params + " { "@
}

fn class_head(subclass_name: &str, generic_params: &str, export_name: &str) -> (text: String)
    ensures
        text@ == class_head_text(subclass_name@, generic_params@, export_name@),
{
    let mut text = String::from_str("class ");
    text.append(subclass_name);
    text.append(generic_params);
    text.append(" extends ");
    text.append(export_name);
    text.append(generic_params);
    text.append(" { ");
    text
}

/// One tagged variant's subclass, and the expression its `fromJson` dispatch answers with.
pub open spec fn variant_tokens_text(
    export_name: Seq<char>,
    subclass_name: Seq<char>,
    generic_params: Seq<char>,
    codec: (Seq<char>, Seq<char>, Seq<char>),
    wire_tag: Seq<char>,
    payload: VariantPayload,
    shape: (Option<Seq<char>>, bool, Seq<char>),
    names: DartNames,
) -> (Seq<char>, Seq<char>) {
    let payload_expr = payload_json_text(wire_tag, shape);
    let head = class_head_text(subclass_name, generic_params, export_name);
    match payload {
        VariantPayload::Unit => {
            let own_encode = if shape.1 {
                "{ '"@ + shape.2 + "': '"@ + wire_tag + "' }"@
            } else {
                wrap_encode_text(shape, wire_tag, None)
            };
            (
                head + "const "@ + subclass_name + "(); @override dynamic toJson("@ + codec.2 + ") => "@
                    + own_encode + "; }"@,
                subclass_name + generic_params + "()"@,
            )
        },
        VariantPayload::Named(fields) => {
            let class_text = if shape.1 {
                head + class_body_content_text(
                    subclass_name,
                    fields@,
                    seq!["'"@ + shape.2 + "': '"@ + wire_tag + "',"@],
                    codec,
                    names,
                ) + " }"@
            } else {
                let (ctor_args, ctor_params, field_decls, to_json_map) = parts_of(
                    fields@,
                    Seq::empty(),
                    names,
                );
                head + "const "@ + subclass_name + "({"@ + ctor_params + "}); "@ + field_decls
                    + " factory "@ + subclass_name + ".fromJson(Map<String, dynamic> json"@ + codec.1
                    + ") => "@ + subclass_name + "("@ + ctor_args
                    + "); @override dynamic toJson("@ + codec.2 + ") => "@ + wrap_encode_text(
                    shape,
                    wire_tag,
                    Some(to_json_map),
                ) + "; }"@
            };
            (class_text, subclass_name + generic_params + ".fromJson("@ + payload_expr + codec.0 + ")"@)
        },
        VariantPayload::Value(field_def) => {
            let own_encode = dart_encode(*field_def, "value"@, names);
            let wrapped = if shape.1 {
                "{ '"@ + shape.2 + "': '"@ + wire_tag + "', ...("@ + own_encode
                    + " as Map<String, dynamic>) }"@
            } else {
                wrap_encode_text(shape, wire_tag, Some(own_encode))
            };
            (
                head + "const "@ + subclass_name + "(this.value); final "@ + dart_type(*field_def, names)
                    + " value; @override dynamic toJson("@ + codec.2 + ") => "@ + wrapped + "; }"@,
                subclass_name + generic_params + "("@ + dart_decode(*field_def, payload_expr, names)
                    + ")"@,
            )
        },
    }
}

/// The Dart for one tagged-union variant: its subclass, and its arm of the base class's
/// `fromJson` dispatch (everything after `case '{wire_tag}':`).
pub fn tagged_variant_tokens(
    export_name: &str,
    subclass_name: &str,
    generic_params: &str,
    codec: &GenericCodec,
    wire_tag: &str,
    payload: &VariantPayload,
    shape: &TagShape,
    names: &DartNames,
) -> (tokens: (String, String))
    ensures
        (tokens.0@, tokens.1@) == variant_tokens_text(
            export_name@,
            subclass_name@,
            generic_params@,
            codec_view(*codec),
            wire_tag@,
            *payload,
            shape_view(*shape),
            *names,
        ),
{
    let payload_expr = tagged_payload_json_expr(wire_tag, shape);
    let mut class_text = class_head(subclass_name, generic_params, export_name);
    match payload {
        VariantPayload::Unit => {
            let own_encode = if shape.merge_tag_into_object {
                let mut text = String::from_str("{ '");
                text.append(shape.tag_key.as_str());
                text.append("': '");
                text.append(wire_tag);
                text.append("' }");
                text
            } else {
                tagged_wrap_encode(shape, wire_tag, None)
            };
            class_text.append("const ");
            class_text.append(subclass_name);
            class_text.append("(); @override dynamic toJson(");
            class_text.append(codec.to_json_params.as_str());
            class_text.append(") => ");
            class_text.append(own_encode.as_str());
            class_text.append("; }");
            let mut from_json = subclass_name.to_owned();
            from_json.append(generic_params);
            from_json.append("()");
            (class_text, from_json)
        },
        VariantPayload::Named(fields) => {
            if shape.merge_tag_into_object {
                let mut extra_entry = String::from_str("'");
                extra_entry.append(shape.tag_key.as_str());
                extra_entry.append("': '");
                extra_entry.append(wire_tag);
                extra_entry.append("',");
                let mut extra: Vec<String> = Vec::new();
                extra.push(extra_entry);
                assert(views(extra@) =~= seq![
                    "'"@ + shape.tag_key@ + "': '"@ + wire_tag@ + "',"@,
                ]);
                class_text.append(class_body_content(subclass_name, fields, &extra, codec, names).as_str());
                class_text.append(" }");
            } else {
                let no_extra: Vec<String> = Vec::new();
                assert(views(no_extra@) =~= Seq::<Seq<char>>::empty());
                let parts = class_body_parts(fields, &no_extra, names);
                let wrapped = tagged_wrap_encode(shape, wire_tag, Some(parts.to_json_map.as_str()));
                class_text.append("const ");
                class_text.append(subclass_name);
                class_text.append("({");
                class_text.append(parts.ctor_params.as_str());
                class_text.append("}); ");
                class_text.append(parts.field_decls.as_str());
                class_text.append(" factory ");
                class_text.append(subclass_name);
                class_text.append(".fromJson(Map<String, dynamic> json");
                class_text.append(codec.from_json_params.as_str());
                class_text.append(") => ");
                class_text.append(subclass_name);
                class_text.append("(");
                class_text.append(parts.ctor_args.as_str());
                class_text.append("); @override dynamic toJson(");
                class_text.append(codec.to_json_params.as_str());
                class_text.append(") => ");
                class_text.append(wrapped.as_str());
                class_text.append("; }");
            }
            let mut from_json = subclass_name.to_owned();
            from_json.append(generic_params);
            from_json.append(".fromJson(");
            from_json.append(payload_expr.as_str());
            from_json.append(codec.from_json_args.as_str());
            from_json.append(")");
            (class_text, from_json)
        },
        VariantPayload::Value(field_def) => {
            let own_encode = dart_encode_expr(field_def, "value", names);
            let wrapped = if shape.merge_tag_into_object {
                let mut text = String::from_str("{ '");
                text.append(shape.tag_key.as_str());
                text.append("': '");
                text.append(wire_tag);
                text.append("', ...(");
                text.append(own_encode.as_str());
                text.append(" as Map<String, dynamic>) }");
                text
            } else {
                tagged_wrap_encode(shape, wire_tag, Some(own_encode.as_str()))
            };
            class_text.append("const ");
            class_text.append(subclass_name);
            class_text.append("(this.value); final ");
            class_text.append(dart_typename(field_def, names).as_str());
            class_text.append(" value; @override dynamic toJson(");
            class_text.append(codec.to_json_params.as_str());
            class_text.append(") => ");
            class_text.append(wrapped.as_str());
            class_text.append("; }");
            let mut from_json = subclass_name.to_owned();
            from_json.append(generic_params);
            from_json.append("(");
            from_json.append(dart_decode_expr(field_def, payload_expr.as_str(), names).as_str());
            from_json.append(")");
            (class_text, from_json)
        },
    }
}

/// One variant of an enum, as the Dart surface reads it: its Rust name, the tag it is written
/// under (its rename, or the container's rule applied to its name), and its payload.
pub struct DartVariant {
    pub rust_name: String,
    pub wire_tag: String,
    pub payload: VariantPayload,
}

impl DartVariant {
    /// A variant as declared: its tag is its own `rename` where it has one, else its Rust name
    /// under the enum's rule.
    pub fn declared(rust_name: String, rename: Option<String>, rule: RenameRule, payload: VariantPayload) -> (variant: DartVariant)
        ensures
            variant.rust_name@ == rust_name@,
            variant.wire_tag@ == wire_variant_name_text(
                rust_name@,
                match rename {
                    Some(r) => Some(r@),
                    None => None,
                },
                rule,
            ),
            variant.payload == payload,
    {
        let wire_tag = match &rename {
            Some(r) => wire_variant_name(rust_name.as_str(), Some(r.as_str()), rule),
            None => wire_variant_name(rust_name.as_str(), None, rule),
        };
        DartVariant { rust_name, wire_tag, payload }
    }
}

/// An enum, as the Dart surface reads it: its Rust ident, the name it publishes under, the type
/// parameters it declares, its serde tagging, and its variants in declaration order.
pub struct DartEnum {
    pub rust_ident: String,
    pub export_name: String,
    pub type_parameters: Vec<String>,
    pub tag: Option<String>,
    pub content: Option<String>,
    pub untagged: bool,
    pub variants: Vec<DartVariant>,
}

/// `<T, U>` for the type parameters, or nothing for none.
pub open spec fn generic_params_text(parameters: Seq<Seq<char>>) -> Seq<char> {
    if parameters.len() == 0 {
        Seq::empty()
    } else {
        "<"@ + join(parameters, ", "@) + ">"@
    }
}

pub fn dart_generic_params(parameters: &Vec<String>) -> (text: String)
    ensures
        text@ == generic_params_text(views(parameters@)),
{
    if parameters.len() == 0 {
        String::new()
    } else {
        let mut text = String::from_str("<");
        text.append(join_all(parameters, ", ").as_str());
        text.append(">");
        text
    }
}

/// The shape an enum's tagging gives: the content key, whether the tag merges into the
/// payload's object (a tag without a content key), and the tag key (`type` by default).
pub open spec fn enum_shape(item: DartEnum) -> (Option<Seq<char>>, bool, Seq<char>) {
    (
        opt_text(item.content),
        item.tag is Some && item.content is None,
        match item.tag {
            Some(tag) => tag@,
            None => "type"@,
        },
    )
}

/// Whether the tag is the object's one key (no tag key, no content key).
pub open spec fn is_external(shape: (Option<Seq<char>>, bool, Seq<char>)) -> bool {
    shape.0 is None && !shape.1
}

fn tag_shape(item: &DartEnum) -> (shape: TagShape)
    ensures
        shape_view(shape) == enum_shape(*item),
{
    let content_key = match &item.content {
        Some(content) => Some(content.clone()),
        None => None,
    };
    let tag_key = match &item.tag {
        Some(tag) => tag.clone(),
        None => String::from_str("type"),
    };
    TagShape {
        content_key,
        merge_tag_into_object: item.tag.is_some() && item.content.is_none(),
        tag_key,
    }
}

/// One arm of a `fromJson` dispatch.
pub open spec fn case_text(wire_tag: Seq<char>, from_json: Seq<char>) -> Seq<char> {
    "case '"@ + wire_tag + "': return "@ + from_json + ";"@
}

/// Each variant's subclass, and its dispatch arm: under external tagging a unit variant's arm
/// reads the bare string, every other arm an object.
pub open spec fn tagged_arms(
    variants: Seq<DartVariant>,
    export_name: Seq<char>,
    generic_params: Seq<char>,
    codec: (Seq<char>, Seq<char>, Seq<char>),
    shape: (Option<Seq<char>>, bool, Seq<char>),
    names: DartNames,
) -> (Seq<Seq<char>>, Seq<Seq<char>>, Seq<Seq<char>>)
    decreases variants.len(),
{
    if variants.len() == 0 {
        (Seq::empty(), Seq::empty(), Seq::empty())
    } else {
        let (subclasses, string_arms, map_arms) = tagged_arms(
            variants.drop_last(),
            export_name,
            generic_params,
            codec,
            shape,
            names,
        );
        let variant = variants.last();
        let (class_text, from_json) = variant_tokens_text(
            export_name,
            export_name + variant.rust_name@,
            generic_params,
            codec,
            variant.wire_tag@,
            variant.payload,
            shape,
            names,
        );
        let arm = case_text(variant.wire_tag@, from_json);
        if is_external(shape) && variant.payload is Unit {
            (subclasses.push(class_text), string_arms.push(arm), map_arms)
        } else {
            (subclasses.push(class_text), string_arms, map_arms.push(arm))
        }
    }
}

/// The base class's `fromJson`: under external tagging a bare string is matched against the unit
/// variants and an object dispatched on its one key; otherwise the tag is read off its key.
pub open spec fn base_from_json_text(
    export_name: Seq<char>,
    codec: (Seq<char>, Seq<char>, Seq<char>),
    shape: (Option<Seq<char>>, bool, Seq<char>),
    string_arms: Seq<Seq<char>>,
    map_arms: Seq<Seq<char>>,
) -> Seq<char> {
    if is_external(shape) {
        "factory "@ + export_name + ".fromJson(dynamic json"@ + codec.1
            + ") { if (json is String) { switch (json) { "@ + join(string_arms, " "@)
            + " default: throw ArgumentError('Unknown "@ + export_name
            + ": ' + json); } } final map = json as Map<String, dynamic>; final tag = map.keys.first; switch (tag) { "@
            + join(map_arms, " "@) + " default: throw ArgumentError('Unknown "@ + export_name
            + ": ' + tag); } }"@
    } else {
        "factory "@ + export_name + ".fromJson(Map<String, dynamic> json"@ + codec.1
            + ") { final tag = json['"@ + shape.2 + "'] as String; switch (tag) { "@ + join(
            map_arms,
            " "@,
        ) + " default: throw ArgumentError('Unknown "@ + export_name + ": ' + tag); } }"@
    }
}

/// The Dart a tagged enum publishes: the `sealed` base class with its dispatching `fromJson`,
/// one subclass per variant, and the `typedef` a renamed enum re-publishes under its Rust ident.
pub open spec fn tagged_enum_text(item: DartEnum, names: DartNames) -> Seq<char> {
    let export_name = item.export_name@;
    let generic_params = generic_params_text(views(item.type_parameters@));
    let codec = codec_text(views(item.type_parameters@));
    let shape = enum_shape(item);
    let (subclasses, string_arms, map_arms) = tagged_arms(
        item.variants@,
        export_name,
        generic_params,
        codec,
        shape,
        names,
    );
    "sealed class "@ + export_name + generic_params + " { const "@ + export_name + "(); "@
        + base_from_json_text(export_name, codec, shape, string_arms, map_arms)
        + " dynamic toJson("@ + codec.2 + "); }"@ + " "@ + join(subclasses, " "@)
        + ident_typedef_text(item.rust_ident@, export_name, generic_params)
}

fn tagged_parts(
    item: &DartEnum,
    generic_params: &String,
    codec: &GenericCodec,
    shape: &TagShape,
    names: &DartNames,
) -> (parts: (Vec<String>, Vec<String>, Vec<String>))
    ensures
        (views(parts.0@), views(parts.1@), views(parts.2@)) == tagged_arms(
            item.variants@,
            item.export_name@,
            generic_params@,
            codec_view(*codec),
            shape_view(*shape),
            *names,
        ),
{
    let export_name = item.export_name.as_str();
    let external = shape.content_key.is_none() && !shape.merge_tag_into_object;
    let mut subclasses: Vec<String> = Vec::new();
    let mut string_arms: Vec<String> = Vec::new();
    let mut map_arms: Vec<String> = Vec::new();
    let mut i: usize = 0;
    while i < item.variants.len()
        invariant
            0 <= i <= item.variants.len(),
            external == is_external(shape_view(*shape)),
            export_name@ == item.export_name@,
            (views(subclasses@), views(string_arms@), views(map_arms@)) == tagged_arms(
                item.variants@.take(i as int),
                export_name@,
                generic_params@,
                codec_view(*codec),
                shape_view(*shape),
                *names,
            ),
        decreases item.variants.len() - i,
    {
        assert(item.variants@.take(i + 1).drop_last() =~= item.variants@.take(i as int));
        let variant = &item.variants[i];
        let mut subclass_name = export_name.to_owned();
        subclass_name.append(variant.rust_name.as_str());
        let (class_text, from_json) = tagged_variant_tokens(
            export_name,
            subclass_name.as_str(),
            generic_params.as_str(),
            codec,
            variant.wire_tag.as_str(),
            &variant.payload,
            shape,
            names,
        );
        let mut arm = String::from_str("case '");
        arm.append(variant.wire_tag.as_str());
        arm.append("': return ");
        arm.append(from_json.as_str());
        arm.append(";");
        let ghost (b1, b2, b3) = (views(subclasses@), views(string_arms@), views(map_arms@));
        subclasses.push(class_text);
        assert(views(subclasses@) =~= b1.push(class_text@));
        let unit = match &variant.payload {
            VariantPayload::Unit => true,
            _ => false,
        };
        if external && unit {
            string_arms.push(arm);
            assert(views(string_arms@) =~= b2.push(arm@));
        } else {
            map_arms.push(arm);
            assert(views(map_arms@) =~= b3.push(arm@));
        }
        i += 1;
    }
    assert(item.variants@.take(item.variants.len() as int) =~= item.variants@);
    (subclasses, string_arms, map_arms)
}

fn base_from_json(
    export_name: &str,
    codec: &GenericCodec,
    shape: &TagShape,
    string_arms: &Vec<String>,
    map_arms: &Vec<String>,
) -> (text: String)
    ensures
        text@ == base_from_json_text(
            export_name@,
            codec_view(*codec),
            shape_view(*shape),
            views(string_arms@),
            views(map_arms@),
        ),
{
    let mut text = String::from_str("factory ");
    let external = shape.content_key.is_none() && !shape.merge_tag_into_object;
    if external {
        text.append(export_name);
        text.append(".fromJson(dynamic json");
        text.append(codec.from_json_params.as_str());
        text.append(") { if (json is String) { switch (json) { ");
        text.append(join_all(string_arms, " ").as_str());
        text.append(" default: throw ArgumentError('Unknown ");
        text.append(export_name);
        text.append(
            ": ' + json); } } final map = json as Map<String, dynamic>; final tag = map.keys.first; switch (tag) { ",
        );
        text.append(join_all(map_arms, " ").as_str());
        text.append(" default: throw ArgumentError('Unknown ");
        text.append(export_name);
        text.append(": ' + tag); } }");
    } else {
        text.append(export_name);
        text.append(".fromJson(Map<String, dynamic> json");
        text.append(codec.from_json_params.as_str());
        text.append(") { final tag = json['");
        text.append(shape.tag_key.as_str());
        text.append("'] as String; switch (tag) { ");
        text.append(join_all(map_arms, " ").as_str());
        text.append(" default: throw ArgumentError('Unknown ");
        text.append(export_name);
        text.append(": ' + tag); } }");
    }
    text
}

pub fn tagged_enum_dart_source(item: &DartEnum, names: &DartNames) -> (text: String)
    ensures
        text@ == tagged_enum_text(*item, *names),
{
    let export_name = item.export_name.as_str();
    let generic_params = dart_generic_params(&item.type_parameters);
    let codec = generic_codec(&item.type_parameters);
    let shape = tag_shape(item);
    let (subclasses, string_arms, map_arms) = tagged_parts(item, &generic_params, &codec, &shape, names);
    let mut text = String::from_str("sealed class ");
    text.append(export_name);
    text.append(generic_params.as_str());
    text.append(" { const ");
    text.append(export_name);
    text.append("(); ");
    text.append(base_from_json(export_name, &codec, &shape, &string_arms, &map_arms).as_str());
    text.append(" dynamic toJson(");
    text.append(codec.to_json_params.as_str());
    text.append("); }");
    text.append(" ");
    text.append(join_all(&subclasses, " ").as_str());
    text.append(ident_typedef(item.rust_ident.as_str(), export_name, generic_params.as_str()).as_str());
    text
}

/// One untagged variant's subclass, and the expression its attempt decodes with.
pub open spec fn untagged_variant_text(
    export_name: Seq<char>,
    subclass_name: Seq<char>,
    generic_params: Seq<char>,
    codec: (Seq<char>, Seq<char>, Seq<char>),
    payload: VariantPayload,
    names: DartNames,
) -> (Seq<char>, Seq<char>) {
    let head = class_head_text(subclass_name, generic_params, export_name);
    match payload {
        VariantPayload::Named(fields) => (
            head + class_body_content_text(subclass_name, fields@, Seq::empty(), codec, names) + " }"@,
            subclass_name + generic_params + ".fromJson(json as Map<String, dynamic>"@ + codec.0 + ")"@,
        ),
        VariantPayload::Value(field_def) => (
            head + "const "@ + subclass_name + "(this.value); final "@ + dart_type(*field_def, names)
                + " value; @override dynamic toJson("@ + codec.2 + ") => "@ + dart_encode(
                *field_def,
                "value"@,
                names,
            ) + "; }"@,
            subclass_name + generic_params + "("@ + dart_decode(*field_def, "json"@, names) + ")"@,
        ),
        VariantPayload::Unit => (
            head + "const "@ + subclass_name + "(); @override dynamic toJson("@ + codec.2
                + ") => null; }"@,
            subclass_name + generic_params + "()"@,
        ),
    }
}

/// Each untagged variant's subclass, and its attempt at decoding.
pub open spec fn untagged_parts(
    variants: Seq<DartVariant>,
    export_name: Seq<char>,
    generic_params: Seq<char>,
    codec: (Seq<char>, Seq<char>, Seq<char>),
    names: DartNames,
) -> (Seq<Seq<char>>, Seq<Seq<char>>)
    decreases variants.len(),
{
    if variants.len() == 0 {
        (Seq::empty(), Seq::empty())
    } else {
        let (subclasses, attempts) = untagged_parts(
            variants.drop_last(),
            export_name,
            generic_params,
            codec,
            names,
        );
        let variant = variants.last();
        let (class_text, from_json) = untagged_variant_text(
            export_name,
            export_name + variant.rust_name@,
            generic_params,
            codec,
            variant.payload,
            names,
        );
        (
            subclasses.push(class_text),
            attempts.push("try { return "@ + from_json + "; } catch (_) {}"@),
        )
    }
}

/// The Dart an untagged enum publishes: a `sealed` base class whose `fromJson` tries each
/// variant's decode in turn and answers the first that does not throw, and one subclass per
/// variant.
pub open spec fn untagged_enum_text(item: DartEnum, names: DartNames) -> Seq<char> {
    let export_name = item.export_name@;
    let generic_params = generic_params_text(views(item.type_parameters@));
    let codec = codec_text(views(item.type_parameters@));
    let (subclasses, attempts) = untagged_parts(
        item.variants@,
        export_name,
        generic_params,
        codec,
        names,
    );
    "sealed class "@ + export_name + generic_params + " { const "@ + export_name + "(); factory "@
        + export_name + ".fromJson(dynamic json"@ + codec.1 + ") { "@ + join(attempts, " "@)
        + " throw ArgumentError('No variant of "@ + export_name + " matched'); } dynamic toJson("@
        + codec.2 + "); }"@ + " "@ + join(subclasses, " "@) + ident_typedef_text(
        item.rust_ident@,
        export_name,
        generic_params,
    )
}

pub fn untagged_enum_dart_source(item: &DartEnum, names: &DartNames) -> (text: String)
    ensures
        text@ == untagged_enum_text(*item, *names),
{
    let export_name = item.export_name.as_str();
    let generic_params = dart_generic_params(&item.type_parameters);
    let codec = generic_codec(&item.type_parameters);
    let ghost spec_codec = codec_text(views(item.type_parameters@));
    let mut subclasses: Vec<String> = Vec::new();
    let mut attempts: Vec<String> = Vec::new();
    let mut i: usize = 0;
    while i < item.variants.len()
        invariant
            0 <= i <= item.variants.len(),
            codec_view(codec) == spec_codec,
            spec_codec == codec_text(views(item.type_parameters@)),
            export_name@ == item.export_name@,
            generic_params@ == generic_params_text(views(item.type_parameters@)),
            (views(subclasses@), views(attempts@)) == untagged_parts(
                item.variants@.take(i as int),
                export_name@,
                generic_params@,
                spec_codec,
                *names,
            ),
        decreases item.variants.len() - i,
    {
        assert(item.variants@.take(i + 1).drop_last() =~= item.variants@.take(i as int));
        let variant = &item.variants[i];
        let mut subclass_name = export_name.to_owned();
        subclass_name.append(variant.rust_name.as_str());
        let sub = subclass_name.as_str();
        let mut class_text = class_head(sub, generic_params.as_str(), export_name);
        let mut from_json = sub.to_owned();
        from_json.append(generic_params.as_str());
        match &variant.payload {
            VariantPayload::Named(fields) => {
                let no_extra: Vec<String> = Vec::new();
                assert(views(no_extra@) =~= Seq::<Seq<char>>::empty());
                class_text.append(class_body_content(sub, fields, &no_extra, &codec, names).as_str());
                class_text.append(" }");
                from_json.append(".fromJson(json as Map<String, dynamic>");
                from_json.append(codec.from_json_args.as_str());
                from_json.append(")");
            },
            VariantPayload::Value(field_def) => {
                class_text.append("const ");
                class_text.append(sub);
                class_text.append("(this.value); final ");
                class_text.append(dart_typename(field_def, names).as_str());
                class_text.append(" value; @override dynamic toJson(");
                class_text.append(codec.to_json_params.as_str());
                class_text.append(") => ");
                class_text.append(dart_encode_expr(field_def, "value", names).as_str());
                class_text.append("; }");
                from_json.append("(");
                from_json.append(dart_decode_expr(field_def, "json", names).as_str());
                from_json.append(")");
            },
            VariantPayload::Unit => {
                class_text.append("const ");
                class_text.append(sub);
                class_text.append("(); @override dynamic toJson(");
                class_text.append(codec.to_json_params.as_str());
                class_text.append(") => null; }");
                from_json.append("()");
            },
        }
        let mut attempt = String::from_str("try { return ");
        attempt.append(from_json.as_str());
        attempt.append("; } catch (_) {}");
        let ghost (b1, b2) = (views(subclasses@), views(attempts@));
        subclasses.push(class_text);
        attempts.push(attempt);
        assert(views(subclasses@) =~= b1.push(class_text@));
        assert(views(attempts@) =~= b2.push(attempt@));
        i += 1;
    }
    assert(item.variants@.take(item.variants.len() as int) =~= item.variants@);
    let mut text = String::from_str("sealed class ");
    text.append(export_name);
    text.append(generic_params.as_str());
    text.append(" { const ");
    text.append(export_name);
    text.append("(); factory ");
    text.append(export_name);
    text.append(".fromJson(dynamic json");
    text.append(codec.from_json_params.as_str());
    text.append(") { ");
    text.append(join_all(&attempts, " ").as_str());
    text.append(" throw ArgumentError('No variant of ");
    text.append(export_name);
    text.append(" matched'); } dynamic toJson(");
    text.append(codec.to_json_params.as_str());
    text.append("); }");
    text.append(" ");
    text.append(join_all(&subclasses, " ").as_str());
    text.append(ident_typedef(item.rust_ident.as_str(), export_name, generic_params.as_str()).as_str());
    text
}

/// One member of a plain enum: its Dart name and its wire value.
pub open spec fn plain_member_text(variant: DartVariant) -> Seq<char> {
    lower_first(variant.rust_name@) + "('"@ + variant.wire_tag@ + "')"@
}

/// One arm of a plain enum's `fromJson` switch.
pub open spec fn plain_arm_text(export_name: Seq<char>, variant: DartVariant) -> Seq<char> {
    "'"@ + variant.wire_tag@ + "' => "@ + export_name + "."@ + lower_first(variant.rust_name@) + ","@
}

/// The Dart an enum of unit variants written as bare strings publishes: a `String`-backed
/// enhanced enum, each member holding its wire value.
pub open spec fn plain_enum_text(item: DartEnum) -> Seq<char> {
    let export_name = item.export_name@;
    let variants = item.variants@;
    "enum "@ + export_name + " { "@ + join(variants.map_values(|v: DartVariant| plain_member_text(v)), ", "@)
        + "; const "@ + export_name + "(this.wireValue); final String wireValue; static "@
        + export_name + " fromJson(String json) => switch (json) { "@ + join(
        variants.map_values(|v: DartVariant| plain_arm_text(export_name, v)),
        ""@,
    ) + " _ => throw ArgumentError('Unknown "@ + export_name
        + ": ' + json) }; String toJson() => wireValue; }"@ + ident_typedef_text(
        item.rust_ident@,
        export_name,
        ""@,
    )
}

pub fn plain_enum_dart_source(item: &DartEnum) -> (text: String)
    ensures
        text@ == plain_enum_text(*item),
{
    let export_name = item.export_name.as_str();
    let ghost variants = item.variants@;
    let mut members: Vec<String> = Vec::new();
    let mut arms: Vec<String> = Vec::new();
    let mut i: usize = 0;
    while i < item.variants.len()
        invariant
            0 <= i <= item.variants.len(),
            variants == item.variants@,
            export_name@ == item.export_name@,
            views(members@) == variants.take(i as int).map_values(
                |v: DartVariant| plain_member_text(v),
            ),
            views(arms@) == variants.take(i as int).map_values(
                |v: DartVariant| plain_arm_text(export_name@, v),
            ),
        decreases item.variants.len() - i,
    {
        let variant = &item.variants[i];
        let name = camel_case_of_variant(variant.rust_name.as_str());
        let mut member = name.clone();
        member.append("('");
        member.append(variant.wire_tag.as_str());
        member.append("')");
        let mut arm = String::from_str("'");
        arm.append(variant.wire_tag.as_str());
        arm.append("' => ");
        arm.append(export_name);
        arm.append(".");
        arm.append(name.as_str());
        arm.append(",");
        let ghost (b1, b2) = (views(members@), views(arms@));
        members.push(member);
        arms.push(arm);
        assert(views(members@) =~= b1.push(member@));
        assert(views(arms@) =~= b2.push(arm@));
        assert(variants.take(i + 1) =~= variants.take(i as int).push(variants[i as int]));
        assert(variants.take(i + 1).map_values(|v: DartVariant| plain_member_text(v)) =~= variants.take(
            i as int,
        ).map_values(|v: DartVariant| plain_member_text(v)).push(plain_member_text(variants[i as int])));
        assert(variants.take(i + 1).map_values(|v: DartVariant| plain_arm_text(export_name@, v))
            =~= variants.take(i as int).map_values(
            |v: DartVariant| plain_arm_text(export_name@, v),
        ).push(plain_arm_text(export_name@, variants[i as int])));
        i += 1;
    }
    assert(variants.take(item.variants.len() as int) =~= variants);
    assert(views(members@) =~= item.variants@.map_values(|v: DartVariant| plain_member_text(v)));
    assert(views(arms@) =~= item.variants@.map_values(
        |v: DartVariant| plain_arm_text(item.export_name@, v),
    ));
    let mut text = String::from_str("enum ");
    text.append(export_name);
    text.append(" { ");
    let member_list = join_all(&members, ", ");
    assert(member_list@ == join(item.variants@.map_values(|v: DartVariant| plain_member_text(v)), ", "@));
    text.append(member_list.as_str());
    text.append("; const ");
    text.append(export_name);
    text.append("(this.wireValue); final String wireValue; static ");
    text.append(export_name);
    text.append(" fromJson(String json) => switch (json) { ");
    let match_arms = join_all(&arms, "");
    assert(match_arms@ == join(
        item.variants@.map_values(|v: DartVariant| plain_arm_text(item.export_name@, v)),
        ""@,
    ));
    text.append(match_arms.as_str());
    text.append(" _ => throw ArgumentError('Unknown ");
    text.append(export_name);
    text.append(": ' + json) }; String toJson() => wireValue; }");
    let typedef = ident_typedef(item.rust_ident.as_str(), export_name, "");
    assert(typedef@ == ident_typedef_text(item.rust_ident@, item.export_name@, ""@));
    text.append(typedef.as_str());
    text
}

/// Whether every variant carries nothing.
pub open spec fn all_unit(variants: Seq<DartVariant>) -> bool {
    forall|i: int| 0 <= i < variants.len() ==> (#[trigger] variants[i]).payload is Unit
}

/// The Dart an enum publishes: a string-backed enum when every variant is a unit written as its
/// bare name, the untagged form when serde reads it untagged, the tagged form otherwise.
pub open spec fn enum_text(item: DartEnum, names: DartNames) -> Seq<char> {
    if all_unit(item.variants@) && item.tag is None && item.content is None && !item.untagged {
        plain_enum_text(item)
    } else if item.untagged {
        untagged_enum_text(item, names)
    } else {
        tagged_enum_text(item, names)
    }
}

pub fn enum_dart_source(item: &DartEnum, names: &DartNames) -> (text: String)
    ensures
        text@ == enum_text(*item, *names),
{
    let mut unit = true;
    let mut i: usize = 0;
    while i < item.variants.len()
        invariant
            0 <= i <= item.variants.len(),
            unit == all_unit(item.variants@.take(i as int)),
        decreases item.variants.len() - i,
    {
        let this_unit = match &item.variants[i].payload {
            VariantPayload::Unit => true,
            _ => false,
        };
        proof {
            let next = item.variants@.take(i + 1);
            let prev = item.variants@.take(i as int);
            assert(next =~= prev.push(item.variants@[i as int]));
            assert forall|j: int| 0 <= j < i implies next[j] == prev[j] by {}
            if all_unit(next) {
                assert forall|j: int| 0 <= j < prev.len() implies (#[trigger] prev[j]).payload is Unit by {
                    assert(next[j] == prev[j]);
                }
                assert(next[i as int].payload is Unit);
            }
            if all_unit(prev) && this_unit {
                assert forall|j: int| 0 <= j < next.len() implies (#[trigger] next[j]).payload is Unit by {
                    if j < i {
                        assert(next[j] == prev[j]);
                    }
                }
            }
        }
        unit = unit && this_unit;
        i += 1;
    }
    assert(item.variants@.take(item.variants.len() as int) =~= item.variants@);
    if unit && item.tag.is_none() && item.content.is_none() && !item.untagged {
        plain_enum_dart_source(item)
    } else if item.untagged {
        untagged_enum_dart_source(item, names)
    } else {
        tagged_enum_dart_source(item, names)
    }
}

} // verus!
