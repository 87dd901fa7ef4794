use tixschema::declaration::{wire_slots, AliasDecl, NamedField, StructDecl, StructFields, TupleSlot};
use tixschema::features::dart::items::{collect_dart_fields, dart_module, dart_schema_dispatch, DartItem};
use tixschema::features::dart::tagged::{DartEnum, DartVariant, VariantPayload};
use tixschema::features::dart::{
    class_body, dart_typename, generic_codec, ident_typedef, lookup_dart_name, DartField, DartNames,
};
use tixschema::features::kotlin::dispatch::{collect_kotlin_fields, kotlin_schema_dispatch, KotlinItem};
use tixschema::features::kotlin::enums::{KotlinEnum, KotlinPayload, KotlinVariant};
use tixschema::features::kotlin::{kotlin_typename, lookup_kotlin_name, KotlinField, KotlinNames, TupleWrappers};
use tixschema::field_type::{FieldDef, FieldDefType, MapKeyWire};

fn typed(field_type: FieldDefType) -> FieldDef {
    FieldDef {
        field_type,
        array_depth: 0,
        nullable_levels: Vec::new(),
        optional: false,
        as_number: false,
        nullable: false,
        map_key_wire: MapKeyWire::Named,
        parameter_shape: false,
    }
}

fn list_of(field_type: FieldDefType) -> FieldDef {
    let mut field = typed(field_type);
    field.array_depth = 1;
    field.nullable_levels = vec![false];
    field
}

fn slot(field_type: FieldDefType, skipped: bool) -> TupleSlot {
    TupleSlot {
        field: typed(field_type),
        skipped,
    }
}

fn decl(rust_ident: &str, export_name: &str, transparent: bool, fields: StructFields) -> StructDecl {
    StructDecl {
        rust_ident: rust_ident.to_owned(),
        export_name: export_name.to_owned(),
        type_parameters: Vec::new(),
        transparent,
        fields,
    }
}

fn alias(rust_ident: &str, export_name: &str, target: FieldDef) -> AliasDecl {
    AliasDecl {
        rust_ident: rust_ident.to_owned(),
        export_name: export_name.to_owned(),
        type_parameters: Vec::new(),
        target,
    }
}

fn named(rust_name: &str, wire_name: &str, field_def: FieldDef) -> NamedField {
    NamedField {
        rust_name: rust_name.to_owned(),
        wire_name: wire_name.to_owned(),
        field_def,
        absent_from_wire: false,
        omits_key: false,
        flatten: false,
    }
}

fn fresh() -> TupleWrappers {
    TupleWrappers {
        counter: 0,
        aux: Vec::new(),
    }
}

#[test]
fn skipped_slots_leave_the_wire_in_order() {
    let kept = wire_slots(vec![
        slot(FieldDefType::I32, false),
        slot(FieldDefType::String, true),
        slot(FieldDefType::Boolean, false),
    ]);
    assert_eq!(kept.len(), 2);
    assert!(matches!(kept[0].field_type, FieldDefType::I32));
    assert!(matches!(kept[1].field_type, FieldDefType::Boolean));
    assert!(wire_slots(vec![slot(FieldDefType::I32, true)]).is_empty());
}

#[test]
fn a_dart_newtype_wraps_its_value_in_its_own_module() {
    let mut names = DartNames::new();
    let item = DartItem::Struct(decl(
        "UserId",
        "UserId",
        true,
        StructFields::Unnamed(vec![slot(FieldDefType::String, false)]),
    ));
    let module = dart_schema_dispatch(item, &mut names);
    assert_eq!(
        module,
        "pub mod user_id_dart {\npub fn dart_definition() -> String {\n\"class UserId { const \
         UserId(this.value); final String value; factory UserId.fromJson(dynamic json) => \
         UserId(json as String); dynamic toJson() => value; }\".to_owned()\n}\n}\n"
    );
    assert_eq!(lookup_dart_name(&names, "UserId").as_deref(), Some("UserId"));
}

#[test]
fn a_dart_tuple_struct_wraps_the_record_of_its_wire_slots() {
    let mut names = DartNames::new();
    let item = DartItem::Struct(decl(
        "Point",
        "Point",
        false,
        StructFields::Unnamed(vec![
            slot(FieldDefType::I32, false),
            slot(FieldDefType::String, true),
            slot(FieldDefType::I32, false),
        ]),
    ));
    let module = dart_schema_dispatch(item, &mut names);
    let expected = dart_module(
        "Point",
        "class Point { const Point(this.value); final (int, int) value; factory \
         Point.fromJson(dynamic json) => Point(((json as List<dynamic>)[0] as int, (json as \
         List<dynamic>)[1] as int)); dynamic toJson() => [(value).$1, (value).$2]; }",
    );
    assert_eq!(module, expected);
}

#[test]
fn a_dart_single_slot_tuple_struct_without_transparent_is_a_one_element_record() {
    let mut names = DartNames::new();
    let item = DartItem::Struct(decl(
        "Meters",
        "Meters",
        false,
        StructFields::Unnamed(vec![slot(FieldDefType::F64, false)]),
    ));
    let module = dart_schema_dispatch(item, &mut names);
    assert!(module.contains("final (double,) value;"), "got: {module}");
}

#[test]
fn a_dart_struct_with_named_fields_is_a_class_and_a_renamed_one_a_typedef_too() {
    let field = DartField {
        field_def: typed(FieldDefType::String),
        flatten: false,
        required: true,
        rust_name: "memo".to_owned(),
        wire_name: "memo".to_owned(),
    };
    let mut names = DartNames::new();
    let mut hidden = named("secret", "secret", typed(FieldDefType::String));
    hidden.absent_from_wire = true;
    let module = dart_schema_dispatch(
        DartItem::Struct(decl(
            "Invoice",
            "Bill",
            false,
            StructFields::Named(vec![named("memo", "memo", typed(FieldDefType::String)), hidden]),
        )),
        &mut names,
    );
    let body = class_body("Bill", "", &vec![field], &generic_codec(&Vec::new()), &names);
    let source = format!("{body}{}", ident_typedef("Invoice", "Bill", ""));
    assert_eq!(module, dart_module("Invoice", &source));
    assert!(module.starts_with("pub mod invoice_dart {"), "got: {module}");
    assert!(module.contains("class Bill {"), "got: {module}");
    assert!(module.contains("typedef Invoice = Bill;"), "got: {module}");
    assert_eq!(lookup_dart_name(&names, "Invoice").as_deref(), Some("Bill"));
}

#[test]
fn a_dart_unit_struct_is_a_class_without_fields() {
    let mut names = DartNames::new();
    let module = dart_schema_dispatch(DartItem::Struct(decl("Ping", "Ping", false, StructFields::Unit)), &mut names);
    let body = class_body("Ping", "", &Vec::new(), &generic_codec(&Vec::new()), &names);
    assert_eq!(module, dart_module("Ping", &body));
}

#[test]
fn a_dart_alias_wraps_its_target_and_republishes_its_ident() {
    let mut names = DartNames::new();
    let module = dart_schema_dispatch(
        DartItem::Alias(alias("Ids", "IdList", list_of(FieldDefType::String))),
        &mut names,
    );
    assert_eq!(
        module,
        dart_module(
            "Ids",
            "class IdList { const IdList(this.value); final List<String> value; factory \
             IdList.fromJson(dynamic json) => IdList((json as List<dynamic>).map((e) => e as \
             String).toList()); dynamic toJson() => value.map((e) => e).toList(); }\n\ntypedef \
             Ids = IdList;"
        )
    );
    assert!(module.contains("\\n\\ntypedef Ids = IdList;"), "got: {module}");
    assert_eq!(lookup_dart_name(&names, "Ids").as_deref(), Some("IdList"));
}

#[test]
fn a_dart_enum_registers_before_it_renders_and_anything_else_publishes_nothing() {
    let mut names = DartNames::new();
    let colour = DartEnum {
        rust_ident: "Colour".to_owned(),
        export_name: "Color".to_owned(),
        type_parameters: Vec::new(),
        tag: None,
        content: None,
        untagged: false,
        variants: vec![DartVariant {
            rust_name: "Red".to_owned(),
            wire_tag: "red".to_owned(),
            payload: VariantPayload::Unit,
        }],
    };
    let module = dart_schema_dispatch(DartItem::Enum(colour), &mut names);
    assert!(module.starts_with("pub mod colour_dart {\npub fn dart_definition() -> String {\n\"enum Color"), "got: {module}");
    assert_eq!(lookup_dart_name(&names, "Colour").as_deref(), Some("Color"));
    assert!(module.ends_with("\\n\\ntypedef Colour = Color;\".to_owned()\n}\n}\n"), "got: {module}");
    assert_eq!(dart_schema_dispatch(DartItem::Other, &mut names), "");
    assert_eq!(names.entries.len(), 1);
}

#[test]
fn a_kotlin_unit_struct_is_an_object_in_its_own_module() {
    let mut names = KotlinNames { entries: Vec::new() };
    let mut tuples = fresh();
    let module = kotlin_schema_dispatch(
        KotlinItem::Struct(decl("Ping", "Ping", false, StructFields::Unit)),
        &mut names,
        &mut tuples,
    );
    assert_eq!(
        module,
        "pub mod ping_kotlin {\npub fn kotlin_definition() -> String {\n\"@Serializable object \
         Ping\".to_owned()\n}\n}\n"
    );
    assert_eq!(lookup_kotlin_name(&names, "Ping").as_deref(), Some("Ping"));
}

#[test]
fn a_kotlin_transparent_newtype_is_a_value_class() {
    let mut names = KotlinNames { entries: Vec::new() };
    let module = kotlin_schema_dispatch(
        KotlinItem::Struct(decl(
            "UserId",
            "Id",
            true,
            StructFields::Unnamed(vec![slot(FieldDefType::String, false)]),
        )),
        &mut names,
        &mut fresh(),
    );
    assert!(
        module.contains("\"@JvmInline @Serializable value class Id(val value: String) typealias UserId = Id;\""),
        "got: {module}"
    );
    assert_eq!(lookup_kotlin_name(&names, "UserId").as_deref(), Some("Id"));
}

#[test]
fn a_kotlin_tuple_struct_keeps_only_its_wire_slots() {
    let module = kotlin_schema_dispatch(
        KotlinItem::Struct(decl(
            "Point",
            "Point",
            false,
            StructFields::Unnamed(vec![
                slot(FieldDefType::I32, false),
                slot(FieldDefType::String, true),
                slot(FieldDefType::I32, false),
            ]),
        )),
        &mut KotlinNames { entries: Vec::new() },
        &mut fresh(),
    );
    assert!(
        module.contains("data class Point(val slot0: Int, val slot1: Int)"),
        "got: {module}"
    );
    assert!(!module.contains("slot2") && !module.contains("serializer<String>"), "got: {module}");
}

#[test]
fn a_kotlin_struct_with_named_fields_is_a_data_class() {
    let module = kotlin_schema_dispatch(
        KotlinItem::Struct(decl(
            "Invoice",
            "Invoice",
            false,
            StructFields::Named(vec![named("memo", "memo", typed(FieldDefType::String))]),
        )),
        &mut KotlinNames { entries: Vec::new() },
        &mut fresh(),
    );
    assert!(
        module.contains("\"@Serializable data class Invoice(val memo: String)\""),
        "got: {module}"
    );
}

#[test]
fn a_kotlin_alias_is_a_typealias_published_after_the_wrappers_it_queued() {
    let mut names = KotlinNames { entries: Vec::new() };
    let mut tuples = fresh();
    let module = kotlin_schema_dispatch(
        KotlinItem::Alias(alias("Ids", "IdList", list_of(FieldDefType::String))),
        &mut names,
        &mut tuples,
    );
    assert!(
        module.contains("\"typealias IdList = List<String>; typealias Ids = IdList;\""),
        "got: {module}"
    );
    let pair = typed(FieldDefType::Tuple(vec![typed(FieldDefType::String), typed(FieldDefType::Boolean)]));
    let module = kotlin_schema_dispatch(KotlinItem::Alias(alias("Pair", "Pair", pair)), &mut names, &mut tuples);
    assert!(module.starts_with("pub mod pair_kotlin {\npub fn kotlin_definition() -> String {\n\"@Serializable(with = KotlinTuple1Serializer::class)"), "got: {module}");
    assert!(module.ends_with(" typealias Pair = KotlinTuple1;\".to_owned()\n}\n}\n"), "got: {module}");
    assert!(tuples.aux.is_empty());
    assert_eq!(tuples.counter, 1);
}

#[test]
fn a_kotlin_enum_registers_and_anything_else_publishes_nothing() {
    let mut names = KotlinNames { entries: Vec::new() };
    let mut tuples = fresh();
    let colour = KotlinEnum {
        export_name: "Color".to_owned(),
        type_parameters: Vec::new(),
        tag: None,
        content: None,
        untagged: false,
        variants: vec![KotlinVariant {
            rust_name: "Red".to_owned(),
            wire_tag: "red".to_owned(),
            payload: KotlinPayload::Unit,
        }],
    };
    let module = kotlin_schema_dispatch(KotlinItem::Enum("Colour".to_owned(), colour), &mut names, &mut tuples);
    assert_eq!(
        module,
        "pub mod colour_kotlin {\npub fn kotlin_definition() -> String {\n\"@Serializable enum class \
         Color { @SerialName(\\\"red\\\") Red }\".to_owned()\n}\n}\n"
    );
    assert_eq!(lookup_kotlin_name(&names, "Colour").as_deref(), Some("Color"));
    assert_eq!(kotlin_schema_dispatch(KotlinItem::Other, &mut names, &mut tuples), "");
    assert_eq!(names.entries.len(), 1);
}

#[test]
fn named_fields_off_the_wire_are_dropped_and_an_omitted_key_is_optional() {
    let mut hidden = named("secret", "secret", typed(FieldDefType::String));
    hidden.absent_from_wire = true;
    let mut sometimes = named("due_at", "dueAt", typed(FieldDefType::String));
    sometimes.omits_key = true;
    let dart = collect_dart_fields(vec![
        named("memo", "memo", typed(FieldDefType::String)),
        hidden,
        sometimes,
    ]);
    assert_eq!(dart.len(), 2);
    assert_eq!(dart[0].rust_name, "memo");
    assert!(dart[0].required);
    assert_eq!(dart[1].wire_name, "dueAt");
    assert!(!dart[1].required);
    assert!(!dart[1].field_def.optional);

    let mut hidden = named("secret", "secret", typed(FieldDefType::String));
    hidden.absent_from_wire = true;
    let mut sometimes = named("due_at", "dueAt", typed(FieldDefType::String));
    sometimes.omits_key = true;
    let kotlin: Vec<KotlinField> = collect_kotlin_fields(vec![
        named("memo", "memo", typed(FieldDefType::String)),
        hidden,
        sometimes,
    ]);
    assert_eq!(kotlin.len(), 2);
    assert!(!kotlin[0].field_def.optional);
    assert_eq!(kotlin[1].rust_name, "due_at");
    assert!(kotlin[1].field_def.optional);
    let rendered = kotlin_schema_dispatch(
        KotlinItem::Struct(decl("Task", "Task", false, StructFields::Named(kotlin_named_for_task()))),
        &mut KotlinNames { entries: Vec::new() },
        &mut fresh(),
    );
    assert!(
        rendered.contains("data class Task(val memo: String, val dueAt: String? = null)"),
        "got: {rendered}"
    );
}

fn kotlin_named_for_task() -> Vec<NamedField> {
    let mut sometimes = named("due_at", "dueAt", typed(FieldDefType::String));
    sometimes.omits_key = true;
    vec![named("memo", "memo", typed(FieldDefType::String)), sometimes]
}

#[test]
fn a_published_item_is_referenced_by_its_published_name() {
    let reference = typed(FieldDefType::SiblingType("UserId".to_owned(), Vec::new()));
    let mut dart_names = DartNames::new();
    assert_eq!(dart_typename(&reference, &dart_names), "UserId");
    dart_schema_dispatch(
        DartItem::Struct(decl(
            "UserId",
            "AccountId",
            true,
            StructFields::Unnamed(vec![slot(FieldDefType::String, false)]),
        )),
        &mut dart_names,
    );
    assert_eq!(dart_typename(&reference, &dart_names), "AccountId");

    let mut kotlin_names = KotlinNames { entries: Vec::new() };
    let mut tuples = fresh();
    kotlin_schema_dispatch(
        KotlinItem::Alias(alias("UserId", "AccountId", typed(FieldDefType::String))),
        &mut kotlin_names,
        &mut tuples,
    );
    assert_eq!(kotlin_typename(&reference, &kotlin_names, &mut tuples), "AccountId");
    assert!(tuples.aux.is_empty());
}
