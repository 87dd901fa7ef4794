use tixschema::features::kotlin::field_reaches_type_parameter;
use tixschema::features::kotlin::{
    data_class_params, ident_typealias, kotlin_nothing_generic_args, kotlin_out_generic_params,
    kotlin_property_name, kotlin_refused_width, kotlin_serializer_expr,
    kotlin_subclass_serializer_expr, kotlin_typename, lookup_kotlin_name, property_declaration,
    register_kotlin_name, serializer_declaration, KotlinField, KotlinNames, TupleWrappers,
};
use tixschema::field_type::{FieldDef, FieldDefType, MapKeyWire};

fn typed(field_type: FieldDefType) -> FieldDef {
    FieldDef {
        field_type,
        array_depth: 0,
        nullable_levels: Vec::new(),
        optional: false,
        as_number: false,
        nullable: false,
        map_key_wire: MapKeyWire::Named,
        parameter_shape: false,
    }
}

fn no_names() -> KotlinNames {
    KotlinNames { entries: Vec::new() }
}

fn fresh() -> TupleWrappers {
    TupleWrappers {
        counter: 0,
        aux: Vec::new(),
    }
}

#[test]
fn a_registered_kotlin_name_reads_back() {
    let mut names = no_names();
    register_kotlin_name(&mut names, "Invoice", "Bill");
    assert_eq!(lookup_kotlin_name(&names, "Invoice").as_deref(), Some("Bill"));
    assert_eq!(lookup_kotlin_name(&names, "Receipt"), None);
    let mut tuples = fresh();
    let field = typed(FieldDefType::SiblingType("Invoice".to_owned(), Vec::new()));
    assert_eq!(kotlin_typename(&field, &names, &mut tuples), "Bill");
}

#[test]
fn a_tuple_is_written_as_a_numbered_wrapper_queued_for_the_item() {
    let mut tuples = fresh();
    let pair = typed(FieldDefType::Tuple(vec![
        typed(FieldDefType::String),
        typed(FieldDefType::U32),
    ]));
    assert_eq!(kotlin_typename(&pair, &no_names(), &mut tuples), "KotlinTuple1");
    assert_eq!(kotlin_typename(&pair, &no_names(), &mut tuples), "KotlinTuple2");
    assert_eq!(tuples.counter, 2);
    assert_eq!(tuples.aux.len(), 2);
    assert!(
        tuples.aux[0].starts_with(
            "@Serializable(with = KotlinTuple1Serializer::class) data class \
             KotlinTuple1(val slot0: String, val slot1: UInt)"
        ),
        "got: {}",
        tuples.aux[0]
    );
}

#[test]
fn list_levels_and_optionality_wrap_the_scalar() {
    let mut field = typed(FieldDefType::I64);
    field.array_depth = 2;
    field.nullable_levels = vec![true, false];
    field.optional = true;
    assert_eq!(
        kotlin_typename(&field, &no_names(), &mut fresh()),
        "List<List<Long?>>?"
    );
}

#[test]
fn a_u64_anywhere_is_refused_by_width() {
    let wide = typed(FieldDefType::U64);
    assert_eq!(kotlin_refused_width(&wide), Some("u64"));
    let nested = typed(FieldDefType::Tuple(vec![typed(FieldDefType::String), typed(FieldDefType::Usize)]));
    assert_eq!(kotlin_refused_width(&nested), Some("usize"));
    assert_eq!(kotlin_refused_width(&typed(FieldDefType::U32)), None);
}

#[test]
fn a_parameter_reaching_field_composes_its_serializer() {
    let mut listed = typed(FieldDefType::TypeParam("T".to_owned()));
    listed.array_depth = 1;
    listed.optional = true;
    assert_eq!(
        kotlin_serializer_expr(&listed, &vec!["T".to_owned()], &no_names(), &mut fresh()),
        "ListSerializer(tSerializer).nullable"
    );
    let plain = typed(FieldDefType::String);
    assert_eq!(
        kotlin_serializer_expr(&plain, &vec!["T".to_owned()], &no_names(), &mut fresh()),
        "serializer<String>()"
    );
}

#[test]
fn serializer_heads_follow_the_type_parameters() {
    assert_eq!(serializer_declaration("Page", &Vec::new()), "object PageSerializer");
    assert_eq!(
        serializer_declaration("Page", &vec!["T".to_owned()]),
        "class PageSerializer<T: Any>(private val tSerializer: KSerializer<T>)"
    );
    assert_eq!(
        kotlin_subclass_serializer_expr("PageItem", &vec!["T".to_owned(), "U".to_owned()]),
        "PageItem.serializer(tSerializer, uSerializer)"
    );
    assert_eq!(
        kotlin_subclass_serializer_expr("PageItem", &Vec::new()),
        "serializer<PageItem>()"
    );
}

#[test]
fn generic_lists_and_aliases() {
    let parameters = vec!["T".to_owned(), "U".to_owned()];
    assert_eq!(kotlin_out_generic_params(&parameters), "<out T, out U>");
    assert_eq!(kotlin_nothing_generic_args(&parameters), "<Nothing, Nothing>");
    assert_eq!(kotlin_out_generic_params(&Vec::new()), "");
    assert_eq!(ident_typealias("Foo", "Bar", "<T>"), " typealias Foo<T> = Bar<T>;");
    assert_eq!(ident_typealias("Foo", "Foo", ""), "");
}

#[test]
fn a_property_names_its_wire_key_only_where_it_differs() {
    let mut maybe = typed(FieldDefType::String);
    maybe.optional = true;
    let renamed = KotlinField {
        field_def: maybe,
        flatten: false,
        rust_name: "display_name".to_owned(),
        wire_name: "display_name".to_owned(),
    };
    let plain = KotlinField {
        field_def: typed(FieldDefType::Boolean),
        flatten: false,
        rust_name: "active".to_owned(),
        wire_name: "active".to_owned(),
    };
    let mut tuples = fresh();
    assert_eq!(
        property_declaration(&renamed, &no_names(), &mut tuples),
        "@SerialName(\"display_name\") val displayName: String? = null"
    );
    assert_eq!(
        data_class_params(&vec![renamed, plain], &no_names(), &mut tuples),
        "@SerialName(\"display_name\") val displayName: String? = null, val active: Boolean"
    );
    assert_eq!(kotlin_property_name("conversation_id"), "conversationId");
}

use tixschema::features::kotlin::enums::{enum_kotlin_source, KotlinEnum, KotlinPayload, KotlinVariant};

fn kotlin_variant(rust_name: &str, wire_tag: &str, payload: KotlinPayload) -> KotlinVariant {
    KotlinVariant {
        rust_name: rust_name.to_owned(),
        wire_tag: wire_tag.to_owned(),
        payload,
    }
}

fn kotlin_enum(export_name: &str, variants: Vec<KotlinVariant>) -> KotlinEnum {
    KotlinEnum {
        export_name: export_name.to_owned(),
        type_parameters: Vec::new(),
        tag: None,
        content: None,
        untagged: false,
        variants,
    }
}

#[test]
fn an_enum_of_bare_names_is_an_enum_class() {
    let colour = kotlin_enum(
        "Color",
        vec![
            kotlin_variant("Red", "red", KotlinPayload::Unit),
            kotlin_variant("DarkBlue", "DarkBlue", KotlinPayload::Unit),
        ],
    );
    assert_eq!(
        enum_kotlin_source(&colour, &no_names(), &mut fresh()),
        "@Serializable enum class Color { @SerialName(\"red\") Red, DarkBlue }"
    );
}

#[test]
fn an_internally_tagged_enum_carries_its_discriminator() {
    let mut shape = kotlin_enum(
        "Shape",
        vec![
            kotlin_variant(
                "Circle",
                "circle",
                KotlinPayload::Named(vec![KotlinField {
                    field_def: typed(FieldDefType::F64),
                    flatten: false,
                    rust_name: "radius".to_owned(),
                    wire_name: "radius".to_owned(),
                }]),
            ),
            kotlin_variant("Empty", "empty", KotlinPayload::Unit),
        ],
    );
    shape.tag = Some("kind".to_owned());
    assert_eq!(
        enum_kotlin_source(&shape, &no_names(), &mut fresh()),
        "@OptIn(ExperimentalSerializationApi::class) @Serializable \
         @JsonClassDiscriminator(\"kind\") sealed interface Shape @SerialName(\"circle\") \
         @Serializable data class ShapeCircle(val radius: Double) : Shape @SerialName(\"empty\") \
         @Serializable data object ShapeEmpty : Shape"
    );
}

#[test]
fn an_externally_tagged_enum_writes_its_serializer_by_hand() {
    let event = kotlin_enum(
        "Event",
        vec![
            kotlin_variant("Ping", "ping", KotlinPayload::Unit),
            kotlin_variant(
                "Text",
                "text",
                KotlinPayload::Value(Box::new(typed(FieldDefType::String))),
            ),
        ],
    );
    let rendered = enum_kotlin_source(&event, &no_names(), &mut fresh());
    assert!(
        rendered.starts_with(
            "@Serializable(with = EventSerializer::class) sealed interface Event @Serializable \
             data object EventPing : Event @Serializable data class EventText(val value: String) \
             : Event object EventSerializer : KSerializer<Event> {"
        ),
        "got: {rendered}"
    );
    assert!(
        rendered.contains(
            "output.encodeJsonElement(when (value) { is EventPing -> JsonPrimitive(\"ping\"); is \
             EventText -> buildJsonObject { put(\"text\", \
             output.json.encodeToJsonElement(serializer<String>(), value.value)) } })"
        ),
        "got: {rendered}"
    );
    assert!(
        rendered.contains(
            "return when (tag) { \"ping\" -> EventPing; \"text\" -> \
             EventText(input.json.decodeFromJsonElement(serializer<String>(), data)) else -> \
             error(\"unknown tag \" + tag) }"
        ),
        "got: {rendered}"
    );
}

#[test]
fn an_adjacently_tagged_enum_reads_its_content_key() {
    let mut event = kotlin_enum(
        "Event",
        vec![kotlin_variant(
            "Text",
            "text",
            KotlinPayload::Value(Box::new(typed(FieldDefType::String))),
        )],
    );
    event.tag = Some("t".to_owned());
    event.content = Some("c".to_owned());
    let rendered = enum_kotlin_source(&event, &no_names(), &mut fresh());
    assert!(
        rendered.contains(
            "is EventText -> buildJsonObject { put(\"t\", \"text\"); put(\"c\", \
             output.json.encodeToJsonElement(serializer<String>(), value.value)) }"
        ),
        "got: {rendered}"
    );
    assert!(
        rendered.contains(
            "val tag = obj.getValue(\"t\").jsonPrimitive.content; val data = obj[\"c\"]; return \
             when (tag) { \"text\" -> EventText(input.json.decodeFromJsonElement(serializer<String>(), \
             data!!)) else"
        ),
        "got: {rendered}"
    );
}

#[test]
fn an_untagged_enum_tries_each_variant_serializer() {
    let mut either = kotlin_enum(
        "Either",
        vec![
            kotlin_variant(
                "Word",
                "Word",
                KotlinPayload::Value(Box::new(typed(FieldDefType::String))),
            ),
            kotlin_variant("Flag", "Flag", KotlinPayload::Value(Box::new(typed(FieldDefType::Boolean)))),
        ],
    );
    either.untagged = true;
    let rendered = enum_kotlin_source(&either, &no_names(), &mut fresh());
    assert!(
        rendered.contains("@JvmInline @Serializable value class EitherWord(val value: String) : Either"),
        "got: {rendered}"
    );
    assert!(
        rendered.contains(
            "return runCatching { error(\"unreachable\") as Nothing }.recoverCatching { \
             input.json.decodeFromJsonElement(serializer<EitherWord>(), element) as Either \
             }.recoverCatching { input.json.decodeFromJsonElement(serializer<EitherFlag>(), \
             element) as Either }.getOrElse { error(\"No variant of Either matched\") }"
        ),
        "got: {rendered}"
    );
}

use tixschema::features::kotlin::items::{
    kotlin_module, struct_kotlin_source, tuple_struct_source, value_class_source, KotlinStruct,
    KotlinTupleStruct, KotlinValueStruct,
};

fn kotlin_struct(name: &str, unit: bool, fields: Vec<KotlinField>) -> KotlinStruct {
    KotlinStruct {
        rust_ident: name.to_owned(),
        export_name: name.to_owned(),
        type_parameters: Vec::new(),
        unit,
        fields,
    }
}

fn kotlin_field(rust_name: &str, field_def: FieldDef, flatten: bool) -> KotlinField {
    KotlinField {
        field_def,
        flatten,
        rust_name: rust_name.to_owned(),
        wire_name: rust_name.to_owned(),
    }
}

fn struct_module(item: &KotlinStruct) -> String {
    let mut names = no_names();
    let mut tuples = fresh();
    let source = struct_kotlin_source(item, &mut names, &mut tuples);
    kotlin_module(&item.rust_ident, &source, &mut tuples)
}

#[test]
fn a_unit_struct_renders_as_an_object() {
    let rendered = struct_module(&kotlin_struct("Ping", true, Vec::new()));
    assert!(rendered.contains("object Ping"), "got: {rendered}");
    assert!(!rendered.contains("class Ping"), "got: {rendered}");
}

#[test]
fn a_braced_empty_struct_still_renders_as_a_class() {
    let rendered = struct_module(&kotlin_struct("BracedEmpty", false, Vec::new()));
    assert!(rendered.contains("class BracedEmpty"), "got: {rendered}");
    assert!(!rendered.contains("object BracedEmpty"), "got: {rendered}");
}

#[test]
fn an_item_publishes_from_a_module_of_its_own_draining_the_queued_wrappers() {
    let mut tuples = fresh();
    let pair = typed(FieldDefType::Tuple(vec![typed(FieldDefType::String), typed(FieldDefType::Boolean)]));
    let item = kotlin_struct("PairHolder", false, vec![kotlin_field("pair", pair, false)]);
    let mut names = no_names();
    let source = struct_kotlin_source(&item, &mut names, &mut tuples);
    assert_eq!(source, "@Serializable data class PairHolder(val pair: KotlinTuple1)");
    assert_eq!(tuples.aux.len(), 1);
    let module = kotlin_module("PairHolder", &source, &mut tuples);
    assert!(tuples.aux.is_empty());
    assert!(module.starts_with("pub mod pair_holder_kotlin {\npub fn kotlin_definition() -> String {\n\"@Serializable(with = KotlinTuple1Serializer::class)"), "got: {module}");
    assert!(module.ends_with(" @Serializable data class PairHolder(val pair: KotlinTuple1)\".to_owned()\n}\n}\n"), "got: {module}");
    assert_eq!(lookup_kotlin_name(&names, "PairHolder").as_deref(), Some("PairHolder"));
}

#[test]
fn a_flattened_struct_and_map_merge_their_keys_into_the_object() {
    let item = kotlin_struct(
        "Doc",
        false,
        vec![
            kotlin_field("id", typed(FieldDefType::String), false),
            kotlin_field(
                "meta",
                typed(FieldDefType::SiblingType("Meta".to_owned(), Vec::new())),
                true,
            ),
            kotlin_field(
                "extra",
                typed(FieldDefType::Mapping(
                    Box::new(typed(FieldDefType::String)),
                    Box::new(typed(FieldDefType::String)),
                )),
                true,
            ),
        ],
    );
    let rendered = struct_kotlin_source(&item, &mut no_names(), &mut fresh());
    assert!(
        rendered.starts_with(
            "@Serializable(with = DocSerializer::class) data class Doc(val id: String, val meta: \
             Meta, val extra: Map<String, String>) object DocSerializer : KSerializer<Doc> { \
             override val descriptor: SerialDescriptor = buildClassSerialDescriptor(\"Doc\"); \
             private val lenient = Json { ignoreUnknownKeys = true }; "
        ),
        "got: {rendered}"
    );
    assert!(
        rendered.contains(
            "buildJsonObject { put(\"id\", output.json.encodeToJsonElement(serializer<String>(), \
             value.id)); output.json.encodeToJsonElement(serializer<Meta>(), \
             value.meta).jsonObject.forEach { (k, v) -> put(k, v) }; value.extra.forEach { (k, v) \
             -> put(k, output.json.encodeToJsonElement(serializer<String>(), v)) } })"
        ),
        "got: {rendered}"
    );
    assert!(
        rendered.contains(
            "val metaKeys = (serializer<Meta>()).descriptor.elementNames.toSet(); val meta = \
             lenient.decodeFromJsonElement(serializer<Meta>(), obj); val extraConsumedKeys = \
             setOf(\"id\") + metaKeys; val extra = obj.filterKeys { it !in extraConsumedKeys \
             }.mapValues { (_, v) -> input.json.decodeFromJsonElement(serializer<String>(), v) }; \
             return Doc(id = id, meta = meta, extra = extra) } }"
        ),
        "got: {rendered}"
    );
}

#[test]
fn a_newtype_is_a_value_class_and_a_tuple_struct_an_array() {
    let newtype = KotlinValueStruct {
        rust_ident: "UserId".to_owned(),
        export_name: "Id".to_owned(),
        type_parameters: Vec::new(),
        value: typed(FieldDefType::String),
    };
    assert_eq!(
        value_class_source(&newtype, &mut no_names(), &mut fresh()),
        "@JvmInline @Serializable value class Id(val value: String) typealias UserId = Id;"
    );
    let point = KotlinTupleStruct {
        rust_ident: "Point".to_owned(),
        export_name: "Point".to_owned(),
        type_parameters: Vec::new(),
        slots: vec![typed(FieldDefType::I32), typed(FieldDefType::I32)],
    };
    let rendered = tuple_struct_source(&point, &mut no_names(), &mut fresh());
    assert!(
        rendered.starts_with(
            "@Serializable(with = PointSerializer::class) data class Point(val slot0: Int, val \
             slot1: Int) object PointSerializer : KSerializer<Point> {"
        ),
        "got: {rendered}"
    );
    assert!(
        rendered.ends_with(
            "return Point(input.json.decodeFromJsonElement(serializer<Int>(), array[0]), \
             input.json.decodeFromJsonElement(serializer<Int>(), array[1])) } }"
        ),
        "got: {rendered}"
    );
}

#[test]
fn wrappers_queue_behind_earlier_ones_and_count_up_by_as_many() {
    let mut tuples = TupleWrappers {
        counter: 5,
        aux: vec!["earlier".to_owned()],
    };
    let pair = typed(FieldDefType::Tuple(vec![typed(FieldDefType::String), typed(FieldDefType::Boolean)]));
    let single = typed(FieldDefType::Tuple(vec![typed(FieldDefType::I32)]));
    let map = typed(FieldDefType::Mapping(Box::new(pair), Box::new(single)));
    let names = no_names();
    assert_eq!(kotlin_typename(&map, &names, &mut tuples), "Map<KotlinTuple6, KotlinTuple7>");
    assert_eq!(tuples.counter, 7);
    assert_eq!(tuples.aux.len(), 3);
    assert_eq!(tuples.aux[0], "earlier");
    assert!(tuples.aux[1].starts_with("@Serializable(with = KotlinTuple6Serializer::class) data class KotlinTuple6("));
    assert!(tuples.aux[2].starts_with("@Serializable(with = KotlinTuple7Serializer::class) data class KotlinTuple7("));
    assert_eq!(kotlin_typename(&typed(FieldDefType::String), &names, &mut tuples), "String");
    assert_eq!(tuples.counter, 7);
    assert_eq!(tuples.aux.len(), 3);
}

#[test]
fn a_tuple_holding_a_listed_parameter_reaches_it() {
    let holding = typed(FieldDefType::Tuple(vec![typed(FieldDefType::TypeParam("T".to_owned()))]));
    let listed = vec!["T".to_owned()];
    assert!(field_reaches_type_parameter(&holding, &listed));
    assert!(!field_reaches_type_parameter(&holding, &vec!["U".to_owned()]));
    let mut in_list = holding;
    in_list.array_depth = 1;
    in_list.nullable_levels = vec![false];
    let mut tuples = fresh();
    assert_eq!(
        kotlin_serializer_expr(&in_list, &listed, &no_names(), &mut tuples),
        "ListSerializer(serializer<KotlinTuple1>())"
    );
    assert_eq!(tuples.aux.len(), 1);
}
