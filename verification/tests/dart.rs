use tixschema::features::dart::tagged::{
    enum_dart_source, plain_enum_dart_source, tagged_enum_dart_source, untagged_enum_dart_source,
    DartEnum, DartVariant, VariantPayload,
};
use tixschema::features::dart::{
    dart_decode_expr, dart_encode_expr, dart_typename, generic_codec, ident_typedef,
    lookup_dart_name, register_dart_name, DartNames,
};
use tixschema::field_type::{FieldDef, FieldDefType, MapKeyWire};

fn typed(field_type: FieldDefType) -> FieldDef {
    FieldDef {
        field_type,
        array_depth: 0,
        nullable_levels: Vec::new(),
        optional: false,
        as_number: false,
        nullable: false,
        map_key_wire: MapKeyWire::Named,
        parameter_shape: false,
    }
}

fn variant(rust_name: &str, wire_tag: &str, payload: VariantPayload) -> DartVariant {
    DartVariant {
        rust_name: rust_name.to_owned(),
        wire_tag: wire_tag.to_owned(),
        payload,
    }
}

fn plain_enum(rust_ident: &str, export_name: &str, variants: Vec<DartVariant>) -> DartEnum {
    DartEnum {
        rust_ident: rust_ident.to_owned(),
        export_name: export_name.to_owned(),
        type_parameters: Vec::new(),
        tag: None,
        content: None,
        untagged: false,
        variants,
    }
}

#[test]
fn a_registered_name_reads_back_and_leaves_other_names_alone() {
    let mut names = DartNames::new();
    assert_eq!(lookup_dart_name(&names, "Invoice"), None);
    register_dart_name(&mut names, "Invoice", "Bill");
    register_dart_name(&mut names, "Receipt", "Slip");
    assert_eq!(lookup_dart_name(&names, "Invoice").as_deref(), Some("Bill"));
    register_dart_name(&mut names, "Invoice", "Statement");
    assert_eq!(lookup_dart_name(&names, "Invoice").as_deref(), Some("Statement"));
    assert_eq!(lookup_dart_name(&names, "Receipt").as_deref(), Some("Slip"));
}

#[test]
fn a_reference_is_written_under_the_registered_name() {
    let mut names = DartNames::new();
    register_dart_name(&mut names, "Invoice", "Bill");
    let field = typed(FieldDefType::SiblingType("Invoice".to_owned(), Vec::new()));
    assert_eq!(dart_typename(&field, &names), "Bill");
    let mut listed = typed(FieldDefType::String);
    listed.array_depth = 1;
    listed.nullable_levels = vec![true];
    listed.optional = true;
    assert_eq!(dart_typename(&listed, &names), "List<String?>?");
}

#[test]
fn a_string_decodes_and_encodes_as_itself() {
    let names = DartNames::new();
    let text = typed(FieldDefType::String);
    assert_eq!(dart_decode_expr(&text, "json['name']", &names), "json['name'] as String");
    assert_eq!(dart_encode_expr(&text, "name", &names), "name");
    let mut maybe = typed(FieldDefType::String);
    maybe.optional = true;
    assert_eq!(
        dart_decode_expr(&maybe, "json['name']", &names),
        "(json['name'] == null ? null : json['name'] as String)"
    );
}

#[test]
fn a_generic_codec_threads_one_converter_pair_per_parameter() {
    let codec = generic_codec(&vec!["T".to_owned(), "U".to_owned()]);
    assert_eq!(codec.from_json_args, ", tFromJson, uFromJson");
    assert_eq!(
        codec.from_json_params,
        ", T Function(dynamic) tFromJson, U Function(dynamic) uFromJson"
    );
    assert_eq!(
        codec.to_json_params,
        "dynamic Function(T) tToJson, dynamic Function(U) uToJson"
    );
}

#[test]
fn a_renamed_item_republishes_under_its_rust_ident() {
    assert_eq!(ident_typedef("Colour", "Color", ""), "\n\ntypedef Colour = Color;");
    assert_eq!(ident_typedef("Color", "Color", "<T>"), "");
}

#[test]
fn an_enum_of_bare_names_is_a_string_backed_enum() {
    let colour = plain_enum(
        "Colour",
        "Color",
        vec![
            variant("Red", "red", VariantPayload::Unit),
            variant("DarkBlue", "dark_blue", VariantPayload::Unit),
        ],
    );
    let expected = "enum Color { red('red'), darkBlue('dark_blue'); const Color(this.wireValue); \
                    final String wireValue; static Color fromJson(String json) => switch (json) { \
                    'red' => Color.red,'dark_blue' => Color.darkBlue, _ => throw \
                    ArgumentError('Unknown Color: ' + json) }; String toJson() => wireValue; }\
                    \n\ntypedef Colour = Color;";
    assert_eq!(plain_enum_dart_source(&colour), expected);
    assert_eq!(enum_dart_source(&colour, &DartNames::new()), expected);
}

#[test]
fn an_internally_tagged_unit_variant_writes_the_tag_as_its_object() {
    let mut shape = plain_enum("Shape", "Shape", vec![variant("Empty", "empty", VariantPayload::Unit)]);
    shape.tag = Some("kind".to_owned());
    let expected = "sealed class Shape { const Shape(); factory Shape.fromJson(Map<String, dynamic> \
                    json) { final tag = json['kind'] as String; switch (tag) { case 'empty': return \
                    ShapeEmpty(); default: throw ArgumentError('Unknown Shape: ' + tag); } } dynamic \
                    toJson(); } class ShapeEmpty extends Shape { const ShapeEmpty(); @override \
                    dynamic toJson() => { 'kind': 'empty' }; }";
    assert_eq!(tagged_enum_dart_source(&shape, &DartNames::new()), expected);
    assert_eq!(enum_dart_source(&shape, &DartNames::new()), expected);
}

#[test]
fn an_externally_tagged_unit_variant_is_read_from_a_bare_string() {
    let event = plain_enum("Event", "Event", vec![variant("Ping", "ping", VariantPayload::Unit)]);
    let expected = "sealed class Event { const Event(); factory Event.fromJson(dynamic json) { if \
                    (json is String) { switch (json) { case 'ping': return EventPing(); default: \
                    throw ArgumentError('Unknown Event: ' + json); } } final map = json as \
                    Map<String, dynamic>; final tag = map.keys.first; switch (tag) {  default: throw \
                    ArgumentError('Unknown Event: ' + tag); } } dynamic toJson(); } class EventPing \
                    extends Event { const EventPing(); @override dynamic toJson() => 'ping'; }";
    assert_eq!(tagged_enum_dart_source(&event, &DartNames::new()), expected);
}

#[test]
fn an_adjacently_tagged_value_variant_sits_under_the_content_key() {
    let mut message = plain_enum(
        "Message",
        "Message",
        vec![variant(
            "Text",
            "text",
            VariantPayload::Value(Box::new(typed(FieldDefType::String))),
        )],
    );
    message.tag = Some("t".to_owned());
    message.content = Some("c".to_owned());
    let rendered = tagged_enum_dart_source(&message, &DartNames::new());
    assert!(
        rendered.contains("case 'text': return MessageText(json['c'] as String);"),
        "got: {rendered}"
    );
    assert!(
        rendered.contains(
            "class MessageText extends Message { const MessageText(this.value); final String \
             value; @override dynamic toJson() => { 't': 'text', 'c': value }; }"
        ),
        "got: {rendered}"
    );
}

#[test]
fn an_untagged_enum_tries_each_variant_in_turn() {
    let mut either = plain_enum(
        "Either",
        "Either",
        vec![
            variant("Word", "word", VariantPayload::Value(Box::new(typed(FieldDefType::String)))),
            variant("Flag", "flag", VariantPayload::Value(Box::new(typed(FieldDefType::Boolean)))),
        ],
    );
    either.untagged = true;
    let expected = "sealed class Either { const Either(); factory Either.fromJson(dynamic json) { \
                    try { return EitherWord(json as String); } catch (_) {} try { return \
                    EitherFlag(json as bool); } catch (_) {} throw ArgumentError('No variant of \
                    Either matched'); } dynamic toJson(); } class EitherWord extends Either { const \
                    EitherWord(this.value); final String value; @override dynamic toJson() => value; \
                    } class EitherFlag extends Either { const EitherFlag(this.value); final bool \
                    value; @override dynamic toJson() => value; }";
    assert_eq!(untagged_enum_dart_source(&either, &DartNames::new()), expected);
    assert_eq!(enum_dart_source(&either, &DartNames::new()), expected);
}
