//! The Kotlin an enum publishes.
//!
//! An enum of unit variants written as bare strings is an `enum class`. An internally tagged enum
//! (`tag` alone) is a `sealed interface` the serialization library dispatches on through
//! `@JsonClassDiscriminator`. An adjacently tagged enum (`tag` and `content`) and an externally
//! tagged one (neither) are a `sealed interface` with a generated `KSerializer` that reads and
//! writes the tag and the content by hand; an untagged enum is one whose serializer tries each
//! variant's own serializer in turn.
use crate::features::kotlin::{
    angled_text, kotlin_generic_params, kotlin_nothing_generic_args, kotlin_out_generic_params,
    kotlin_serializer_expr, kotlin_subclass_serializer_expr, kotlin_typename, kt_ser, kt_type,
    properties_text, serializer_declaration, serializer_declaration_text, subclass_serializer_text,
    data_class_params, tuples_of, KotlinField, KotlinNames, TupleWrappers, Tuples,
};
use crate::field_type::FieldDef;
use crate::rename_rule::{wire_variant_name, wire_variant_name_text, RenameRule};
use crate::text::{join, join_all, views};
use vstd::prelude::*;

verus! {

/// What a variant carries.
pub enum KotlinPayload {
    Unit,
    Named(Vec<KotlinField>),
    Value(Box<FieldDef>),
}

/// One variant of an enum, as the Kotlin surface reads it: its Rust name, the tag it is written
/// under, and its payload.
pub struct KotlinVariant {
    pub rust_name: String,
    pub wire_tag: String,
    pub payload: KotlinPayload,
}

impl KotlinVariant {
    /// A variant as declared: its tag is its own `rename` where it has one, else its Rust name
    /// under the enum's rule.
    pub fn declared(rust_name: String, rename: Option<String>, rule: RenameRule, payload: KotlinPayload) -> (variant: KotlinVariant)
        ensures
            variant.rust_name@ == rust_name@,
            variant.wire_tag@ == wire_variant_name_text(
                rust_name@,
                match rename {
                    Some(r) => Some(r@),
                    None => None,
                },
                rule,
            ),
            variant.payload == payload,
    {
        let wire_tag = match &rename {
            Some(r) => wire_variant_name(rust_name.as_str(), Some(r.as_str()), rule),
            None => wire_variant_name(rust_name.as_str(), None, rule),
        };
        KotlinVariant { rust_name, wire_tag, payload }
    }
}

/// An enum, as the Kotlin surface reads it: the name it publishes under, the type parameters it
/// declares, its serde tagging, and its variants in declaration order.
pub struct KotlinEnum {
    pub export_name: String,
    pub type_parameters: Vec<String>,
    pub tag: Option<String>,
    pub content: Option<String>,
    pub untagged: bool,
    pub variants: Vec<KotlinVariant>,
}

/// The generic texts an enum's declarations use: `<T>`, `<Nothing>` and `<out T>`.
pub open spec fn generics_of(type_parameters: Seq<Seq<char>>) -> (Seq<char>, Seq<char>, Seq<char>) {
    (
        angled_text(type_parameters),
        angled_text(Seq::new(type_parameters.len(), |i: int| "Nothing"@)),
        angled_text(type_parameters.map_values(|p: Seq<char>| "out "@ + p)),
    )
}

/// A variant's own subclass, implementing the enum's interface: a `data object` for a unit
/// variant, a `data class` of its fields for a named one, and for a value one a `data class`
/// holding it or, where `bare_value`, the `@JvmInline value class` an untagged member needs.
pub open spec fn variant_subclass_text(
    export_name: Seq<char>,
    subclass_name: Seq<char>,
    generic_params: Seq<char>,
    nothing_generic_args: Seq<char>,
    serial_name: Option<Seq<char>>,
    bare_value: bool,
    payload: KotlinPayload,
    names: KotlinNames,
    st: Tuples,
) -> (Seq<char>, Tuples) {
    let annotation = match serial_name {
        Some(wire) => "@SerialName(\""@ + wire + "\") "@,
        None => Seq::empty(),
    };
    match payload {
        KotlinPayload::Unit => (
            annotation + "@Serializable data object "@ + subclass_name + " : "@ + export_name
                + nothing_generic_args,
            st,
        ),
        KotlinPayload::Named(fields) => {
            let (rendered, s1) = properties_text(fields@, names, st);
            (
                annotation + "@Serializable data class "@ + subclass_name + generic_params + "("@
                    + join(rendered, ", "@) + ") : "@ + export_name + generic_params,
                s1,
            )
        },
        KotlinPayload::Value(field_def) => {
            let (ty, s1) = kt_type(*field_def, names, st);
            if bare_value {
                (
                    annotation + "@JvmInline @Serializable value class "@ + subclass_name + generic_params
                        + "(val value: "@ + ty + ") : "@ + export_name + generic_params,
                    s1,
                )
            } else {
                (
                    annotation + "@Serializable data class "@ + subclass_name + generic_params
                        + "(val value: "@ + ty + ") : "@ + export_name + generic_params,
                    s1,
                )
            }
        },
    }
}

pub fn variant_subclass(
    export_name: &str,
    subclass_name: &str,
    generic_params: &str,
    nothing_generic_args: &str,
    serial_name: Option<&str>,
    bare_value: bool,
    payload: &KotlinPayload,
    names: &KotlinNames,
    tuples: &mut TupleWrappers,
) -> (text: String)
    ensures
        (text@, tuples_of(*final(tuples))) == variant_subclass_text(
            export_name@,
            subclass_name@,
            generic_params@,
            nothing_generic_args@,
            match serial_name {
                Some(wire) => Some(wire@),
                None => None,
            },
            bare_value,
            *payload,
            *names,
            tuples_of(*old(tuples)),
        ),
{
    let mut text = match serial_name {
        Some(wire) => {
            let mut annotation = String::from_str("@SerialName(\"");
            annotation.append(wire);
            annotation.append("\") ");
            annotation
        },
        None => String::new(),
    };
    match payload {
        KotlinPayload::Unit => {
            text.append("@Serializable data object ");
            text.append(subclass_name);
            text.append(" : ");
            text.append(export_name);
            text.append(nothing_generic_args);
        },
        KotlinPayload::Named(fields) => {
            let params = data_class_params(fields, names, tuples);
            text.append("@Serializable data class ");
            text.append(subclass_name);
            text.append(generic_params);
            text.append("(");
            text.append(params.as_str());
            text.append(") : ");
            text.append(export_name);
            text.append(generic_params);
        },
        KotlinPayload::Value(field_def) => {
            let ty = kotlin_typename(field_def, names, tuples);
            if bare_value {
                text.append("@JvmInline @Serializable value class ");
            } else {
                text.append("@Serializable data class ");
            }
            text.append(subclass_name);
            text.append(generic_params);
            text.append("(val value: ");
            text.append(ty.as_str());
            text.append(") : ");
            text.append(export_name);
            text.append(generic_params);
        },
    }
    text
}

/// The tag an internally tagged enum's discriminator is keyed on: its `tag`, `type` by default.
pub open spec fn tag_key_of(tag: Option<String>) -> Seq<char> {
    match tag {
        Some(tag) => tag@,
        None => "type"@,
    }
}

/// Each variant's subclass under internal tagging, always naming its wire tag.
pub open spec fn internal_subclasses_text(
    variants: Seq<KotlinVariant>,
    export_name: Seq<char>,
    generic_params: Seq<char>,
    nothing_generic_args: Seq<char>,
    names: KotlinNames,
    st: Tuples,
) -> (Seq<Seq<char>>, Tuples)
    decreases variants.len(),
{
    if variants.len() == 0 {
        (Seq::empty(), st)
    } else {
        let (before, s1) = internal_subclasses_text(
            variants.drop_last(),
            export_name,
            generic_params,
            nothing_generic_args,
            names,
            st,
        );
        let variant = variants.last();
        let (last, s2) = variant_subclass_text(
            export_name,
            export_name + variant.rust_name@,
            generic_params,
            nothing_generic_args,
            Some(variant.wire_tag@),
            false,
            variant.payload,
            names,
            s1,
        );
        (before.push(last), s2)
    }
}

/// An internally tagged enum: a `sealed interface` carrying its discriminator, then each
/// variant's subclass.
pub open spec fn internal_tagged_text(item: KotlinEnum, names: KotlinNames, st: Tuples) -> (Seq<char>, Tuples) {
    let export_name = item.export_name@;
    let (generic_params, nothing, out) = generics_of(views(item.type_parameters@));
    let (subclasses, s1) = internal_subclasses_text(item.variants@, export_name, generic_params, nothing, names, st);
    (
        "@OptIn(ExperimentalSerializationApi::class) @Serializable @JsonClassDiscriminator(\""@
            + tag_key_of(item.tag) + "\") sealed interface "@ + export_name + out + " "@ + join(
            subclasses,
            " "@,
        ),
        s1,
    )
}

pub fn internal_tagged_enum_kotlin_source(item: &KotlinEnum, names: &KotlinNames, tuples: &mut TupleWrappers) -> (text:
    String)
    ensures
        (text@, tuples_of(*final(tuples))) == internal_tagged_text(*item, *names, tuples_of(*old(tuples))),
{
    let export_name = item.export_name.as_str();
    let generic_params = kotlin_generic_params(&item.type_parameters);
    let nothing = kotlin_nothing_generic_args(&item.type_parameters);
    let out = kotlin_out_generic_params(&item.type_parameters);
    let ghost start = tuples_of(*tuples);
    let mut subclasses: Vec<String> = Vec::new();
    let mut i: usize = 0;
    while i < item.variants.len()
        invariant
            0 <= i <= item.variants.len(),
            export_name@ == item.export_name@,
            (views(subclasses@), tuples_of(*tuples)) == internal_subclasses_text(
                item.variants@.take(i as int),
                export_name@,
                generic_params@,
                nothing@,
                *names,
                start,
            ),
        decreases item.variants.len() - i,
    {
        assert(item.variants@.take(i + 1).drop_last() =~= item.variants@.take(i as int));
        let variant = &item.variants[i];
        let mut subclass_name = export_name.to_owned();
        subclass_name.append(variant.rust_name.as_str());
        let subclass = variant_subclass(
            export_name,
            subclass_name.as_str(),
            generic_params.as_str(),
            nothing.as_str(),
            Some(variant.wire_tag.as_str()),
            false,
            &variant.payload,
            names,
            tuples,
        );
        let ghost before = views(subclasses@);
        subclasses.push(subclass);
        assert(views(subclasses@) =~= before.push(subclasses@.last()@));
        i += 1;
    }
    assert(item.variants@.take(item.variants.len() as int) =~= item.variants@);
    let mut text = String::from_str(
        "@OptIn(ExperimentalSerializationApi::class) @Serializable @JsonClassDiscriminator(\"",
    );
    match &item.tag {
        Some(tag) => text.append(tag.as_str()),
        None => text.append("type"),
    }
    text.append("\") sealed interface ");
    text.append(export_name);
    text.append(out.as_str());
    text.append(" ");
    text.append(join_all(&subclasses, " ").as_str());
    text
}

/// One variant under adjacent or external tagging: its subclass, its `serialize` arm and its
/// `deserialize` arm.
pub open spec fn dispatched_variant_text(
    variant: KotlinVariant,
    export_name: Seq<char>,
    generic_params: Seq<char>,
    nothing_generic_args: Seq<char>,
    type_parameters: Seq<Seq<char>>,
    content_key: Option<Seq<char>>,
    tag_key: Seq<char>,
    names: KotlinNames,
    st: Tuples,
) -> ((Seq<char>, Seq<char>, Seq<char>), Tuples) {
    let wire_tag = variant.wire_tag@;
    let subclass_name = export_name + variant.rust_name@;
    let (subclass, s1) = variant_subclass_text(
        export_name,
        subclass_name,
        generic_params,
        nothing_generic_args,
        None,
        false,
        variant.payload,
        names,
        st,
    );
    let data_ref = if content_key is Some {
        "data!!"@
    } else {
        "data"@
    };
    let (content_expr, decode_expr, s3) = match variant.payload {
        KotlinPayload::Unit => (None::<Seq<char>>, subclass_name, s1),
        KotlinPayload::Named(_) => {
            let serializer = subclass_serializer_text(subclass_name, type_parameters);
            (
                Some("output.json.encodeToJsonElement("@ + serializer + ", value)"@),
                "input.json.decodeFromJsonElement("@ + serializer + ", "@ + data_ref + ")"@,
                s1,
            )
        },
        KotlinPayload::Value(field_def) => {
            let (encoder, s2) = kt_ser(*field_def, type_parameters, names, s1);
            let (decoder, s3) = kt_ser(*field_def, type_parameters, names, s2);
            (
                Some("output.json.encodeToJsonElement("@ + encoder + ", value.value)"@),
                subclass_name + "(input.json.decodeFromJsonElement("@ + decoder + ", "@ + data_ref + "))"@,
                s3,
            )
        },
    };
    let serialize_arm = match (content_key, content_expr) {
        (Some(content), Some(expr)) => "is "@ + subclass_name + " -> buildJsonObject { put(\""@ + tag_key
            + "\", \""@ + wire_tag + "\"); put(\""@ + content + "\", "@ + expr + ") }"@,
        (None, Some(expr)) => "is "@ + subclass_name + " -> buildJsonObject { put(\""@ + wire_tag + "\", "@
            + expr + ") }"@,
        (Some(_), None) => "is "@ + subclass_name + " -> buildJsonObject { put(\""@ + tag_key + "\", \""@
            + wire_tag + "\") }"@,
        (None, None) => "is "@ + subclass_name + " -> JsonPrimitive(\""@ + wire_tag + "\")"@,
    };
    ((subclass, serialize_arm, "\""@ + wire_tag + "\" -> "@ + decode_expr), s3)
}

#[verifier::spinoff_prover]
fn dispatched_tagged_variant(
    variant: &KotlinVariant,
    export_name: &str,
    generic_params: &str,
    nothing_generic_args: &str,
    type_parameters: &Vec<String>,
    content_key: Option<&str>,
    tag_key: &str,
    names: &KotlinNames,
    tuples: &mut TupleWrappers,
) -> (parts: (String, String, String))
    ensures
        ((parts.0@, parts.1@, parts.2@), tuples_of(*final(tuples))) == dispatched_variant_text(
            *variant,
            export_name@,
            generic_params@,
            nothing_generic_args@,
            views(type_parameters@),
            match content_key {
                Some(content) => Some(content@),
                None => None,
            },
            tag_key@,
            *names,
            tuples_of(*old(tuples)),
        ),
{
    let wire_tag = variant.wire_tag.as_str();
    let mut subclass_name = export_name.to_owned();
    subclass_name.append(variant.rust_name.as_str());
    let sub = subclass_name.as_str();
    let subclass = variant_subclass(
        export_name,
        sub,
        generic_params,
        nothing_generic_args,
        None,
        false,
        &variant.payload,
        names,
        tuples,
    );
    let data_ref = if content_key.is_some() {
        "data!!"
    } else {
        "data"
    };
    let (content_expr, decode_expr) = match &variant.payload {
        KotlinPayload::Unit => (None, sub.to_owned()),
        KotlinPayload::Named(_) => {
            let serializer = kotlin_subclass_serializer_expr(sub, type_parameters);
            let mut encode = String::from_str("output.json.encodeToJsonElement(");
            encode.append(serializer.as_str());
            encode.append(", value)");
            let mut decode = String::from_str("input.json.decodeFromJsonElement(");
            decode.append(serializer.as_str());
            decode.append(", ");
            decode.append(data_ref);
            decode.append(")");
            (Some(encode), decode)
        },
        KotlinPayload::Value(field_def) => {
            let encoder = kotlin_serializer_expr(field_def, type_parameters, names, tuples);
            let decoder = kotlin_serializer_expr(field_def, type_parameters, names, tuples);
            let mut encode = String::from_str("output.json.encodeToJsonElement(");
            encode.append(encoder.as_str());
            encode.append(", value.value)");
            let mut decode = sub.to_owned();
            decode.append("(input.json.decodeFromJsonElement(");
            decode.append(decoder.as_str());
            decode.append(", ");
            decode.append(data_ref);
            decode.append("))");
            (Some(encode), decode)
        },
    };
    let mut serialize_arm = String::from_str("is ");
    serialize_arm.append(sub);
    match (content_key, &content_expr) {
        (Some(content), Some(expr)) => {
            serialize_arm.append(" -> buildJsonObject { put(\"");
            serialize_arm.append(tag_key);
            serialize_arm.append("\", \"");
            serialize_arm.append(wire_tag);
            serialize_arm.append("\"); put(\"");
            serialize_arm.append(content);
            serialize_arm.append("\", ");
            serialize_arm.append(expr.as_str());
            serialize_arm.append(") }");
        },
        (None, Some(expr)) => {
            serialize_arm.append(" -> buildJsonObject { put(\"");
            serialize_arm.append(wire_tag);
            serialize_arm.append("\", ");
            serialize_arm.append(expr.as_str());
            serialize_arm.append(") }");
        },
        (Some(_), None) => {
            serialize_arm.append(" -> buildJsonObject { put(\"");
            serialize_arm.append(tag_key);
            serialize_arm.append("\", \"");
            serialize_arm.append(wire_tag);
            serialize_arm.append("\") }");
        },
        (None, None) => {
            serialize_arm.append(" -> JsonPrimitive(\"");
            serialize_arm.append(wire_tag);
            serialize_arm.append("\")");
        },
    }
    let mut deserialize_arm = String::from_str("\"");
    deserialize_arm.append(wire_tag);
    deserialize_arm.append("\" -> ");
    deserialize_arm.append(decode_expr.as_str());
    (subclass, serialize_arm, deserialize_arm)
}

/// Each variant's subclass, `serialize` arm and `deserialize` arm under adjacent or external
/// tagging, in declaration order.
pub open spec fn dispatched_parts_text(
    variants: Seq<KotlinVariant>,
    export_name: Seq<char>,
    generic_params: Seq<char>,
    nothing_generic_args: Seq<char>,
    type_parameters: Seq<Seq<char>>,
    content_key: Option<Seq<char>>,
    tag_key: Seq<char>,
    names: KotlinNames,
    st: Tuples,
) -> ((Seq<Seq<char>>, Seq<Seq<char>>, Seq<Seq<char>>), Tuples)
    decreases variants.len(),
{
    if variants.len() == 0 {
        ((Seq::empty(), Seq::empty(), Seq::empty()), st)
    } else {
        let ((subclasses, serializes, deserializes), s1) = dispatched_parts_text(
            variants.drop_last(),
            export_name,
            generic_params,
            nothing_generic_args,
            type_parameters,
            content_key,
            tag_key,
            names,
            st,
        );
        let ((subclass, serialize, deserialize), s2) = dispatched_variant_text(
            variants.last(),
            export_name,
            generic_params,
            nothing_generic_args,
            type_parameters,
            content_key,
            tag_key,
            names,
            s1,
        );
        ((subclasses.push(subclass), serializes.push(serialize), deserializes.push(deserialize)), s2)
    }
}

/// How the generated serializer reads the tag and the content back: off the object's one entry
/// (or a bare string) under external tagging, off the tag and content keys under adjacent
/// tagging.
pub open spec fn deserialize_body_text(content_key: Option<Seq<char>>, tag_key: Seq<char>, arms: Seq<Seq<char>>) -> Seq<
    char,
> {
    match content_key {
        None => "val element = input.decodeJsonElement(); val (tag, data) = if (element is JsonPrimitive) element.content to JsonNull else element.jsonObject.entries.single().let { it.key to it.value }; return when (tag) { "@
            + join(arms, "; "@) + " else -> error(\"unknown tag \" + tag) }"@,
        Some(content) => "val obj = input.decodeJsonElement().jsonObject; val tag = obj.getValue(\""@
            + tag_key + "\").jsonPrimitive.content; val data = obj[\""@ + content
            + "\"]; return when (tag) { "@ + join(arms, "; "@) + " else -> error(\"unknown tag \" + tag) }"@,
    }
}

/// The `KSerializer` object an enum with a hand-written serializer publishes: `serialize` one
/// `when` over the subclasses, `deserialize` the given body.
pub open spec fn serializer_object_text(
    serializer_head: Seq<char>,
    export_name: Seq<char>,
    generic_params: Seq<char>,
    serialize_arms: Seq<Seq<char>>,
    deserialize_body: Seq<char>,
) -> Seq<char> {
    serializer_head + " : KSerializer<"@ + export_name + generic_params
        + "> { override val descriptor: SerialDescriptor = buildClassSerialDescriptor(\""@ + export_name
        + "\"); override fun serialize(encoder: Encoder, value: "@ + export_name + generic_params
        + ") { val output = encoder as JsonEncoder; output.encodeJsonElement(when (value) { "@ + join(
        serialize_arms,
        "; "@,
    ) + " }) }; override fun deserialize(decoder: Decoder): "@ + export_name + generic_params
        + " { val input = decoder as JsonDecoder; "@ + deserialize_body + " } }"@
}

fn serializer_object(
    serializer_head: &str,
    export_name: &str,
    generic_params: &str,
    serialize_arms: &Vec<String>,
    deserialize_body: &str,
) -> (text: String)
    ensures
        text@ == serializer_object_text(
            serializer_head@,
            export_name@,
            generic_params@,
            views(serialize_arms@),
            deserialize_body@,
        ),
{
    let mut text = serializer_head.to_owned();
    text.append(" : KSerializer<");
    text.append(export_name);
    text.append(generic_params);
    text.append("> { override val descriptor: SerialDescriptor = buildClassSerialDescriptor(\"");
    text.append(export_name);
    text.append("\"); override fun serialize(encoder: Encoder, value: ");
    text.append(export_name);
    text.append(generic_params);
    text.append(") { val output = encoder as JsonEncoder; output.encodeJsonElement(when (value) { ");
    text.append(join_all(serialize_arms, "; ").as_str());
    text.append(" }) }; override fun deserialize(decoder: Decoder): ");
    text.append(export_name);
    text.append(generic_params);
    text.append(" { val input = decoder as JsonDecoder; ");
    text.append(deserialize_body);
    text.append(" } }");
    text
}

/// Optional text, as its characters.
pub open spec fn opt_chars(text: Option<String>) -> Option<Seq<char>> {
    match text {
        Some(t) => Some(t@),
        None => None,
    }
}

/// An adjacently or externally tagged enum: a `sealed interface` bound to its generated
/// serializer, each variant's subclass, then the serializer.
pub open spec fn dispatched_tagged_text(item: KotlinEnum, names: KotlinNames, st: Tuples) -> (Seq<char>, Tuples) {
    let export_name = item.export_name@;
    let type_parameters = views(item.type_parameters@);
    let (generic_params, nothing, out) = generics_of(type_parameters);
    let content_key = opt_chars(item.content);
    let tag_key = tag_key_of(item.tag);
    let ((subclasses, serializes, deserializes), s1) = dispatched_parts_text(
        item.variants@,
        export_name,
        generic_params,
        nothing,
        type_parameters,
        content_key,
        tag_key,
        names,
        st,
    );
    (
        "@Serializable(with = "@ + export_name + "Serializer::class) sealed interface "@ + export_name + out
            + " "@ + join(subclasses, " "@) + " "@ + serializer_object_text(
            serializer_declaration_text(export_name, type_parameters),
            export_name,
            generic_params,
            serializes,
            deserialize_body_text(content_key, tag_key, deserializes),
        ),
        s1,
    )
}

#[verifier::spinoff_prover]
pub fn dispatched_tagged_enum_kotlin_source(item: &KotlinEnum, names: &KotlinNames, tuples: &mut TupleWrappers) -> (text:
    String)
    ensures
        (text@, tuples_of(*final(tuples))) == dispatched_tagged_text(*item, *names, tuples_of(*old(tuples))),
{
    let export_name = item.export_name.as_str();
    let generic_params = kotlin_generic_params(&item.type_parameters);
    let nothing = kotlin_nothing_generic_args(&item.type_parameters);
    let out = kotlin_out_generic_params(&item.type_parameters);
    let content_key: Option<&str> = match &item.content {
        Some(content) => Some(content.as_str()),
        None => None,
    };
    let tag_key: &str = match &item.tag {
        Some(tag) => tag.as_str(),
        None => "type",
    };
    let ghost start = tuples_of(*tuples);
    let ghost spec_content = opt_chars(item.content);
    let mut subclasses: Vec<String> = Vec::new();
    let mut serializes: Vec<String> = Vec::new();
    let mut deserializes: Vec<String> = Vec::new();
    let mut i: usize = 0;
    while i < item.variants.len()
        invariant
            0 <= i <= item.variants.len(),
            export_name@ == item.export_name@,
            tag_key@ == tag_key_of(item.tag),
            spec_content == match content_key {
                Some(content) => Some(content@),
                None => None,
            },
            ((views(subclasses@), views(serializes@), views(deserializes@)), tuples_of(*tuples))
                == dispatched_parts_text(
                item.variants@.take(i as int),
                export_name@,
                generic_params@,
                nothing@,
                views(item.type_parameters@),
                spec_content,
                tag_key@,
                *names,
                start,
            ),
        decreases item.variants.len() - i,
    {
        assert(item.variants@.take(i + 1).drop_last() =~= item.variants@.take(i as int));
        let (subclass, serialize, deserialize) = dispatched_tagged_variant(
            &item.variants[i],
            export_name,
            generic_params.as_str(),
            nothing.as_str(),
            &item.type_parameters,
            content_key,
            tag_key,
            names,
            tuples,
        );
        let ghost (b1, b2, b3) = (views(subclasses@), views(serializes@), views(deserializes@));
        subclasses.push(subclass);
        serializes.push(serialize);
        deserializes.push(deserialize);
        assert(views(subclasses@) =~= b1.push(subclasses@.last()@));
        assert(views(serializes@) =~= b2.push(serializes@.last()@));
        assert(views(deserializes@) =~= b3.push(deserializes@.last()@));
        i += 1;
    }
    assert(item.variants@.take(item.variants.len() as int) =~= item.variants@);
    let arms = join_all(&deserializes, "; ");
    let deserialize_body = match content_key {
        None => {
            let mut body = String::from_str(
                "val element = input.decodeJsonElement(); val (tag, data) = if (element is JsonPrimitive) element.content to JsonNull else element.jsonObject.entries.single().let { it.key to it.value }; return when (tag) { ",
            );
            body.append(arms.as_str());
            body.append(" else -> error(\"unknown tag \" + tag) }");
            body
        },
        Some(content) => {
            let mut body = String::from_str("val obj = input.decodeJsonElement().jsonObject; val tag = obj.getValue(\"");
            body.append(tag_key);
            body.append("\").jsonPrimitive.content; val data = obj[\"");
            body.append(content);
            body.append("\"]; return when (tag) { ");
            body.append(arms.as_str());
            body.append(" else -> error(\"unknown tag \" + tag) }");
            body
        },
    };
    let head = serializer_declaration(export_name, &item.type_parameters);
    let object = serializer_object(
        head.as_str(),
        export_name,
        generic_params.as_str(),
        &serializes,
        deserialize_body.as_str(),
    );
    let mut text = String::from_str("@Serializable(with = ");
    text.append(export_name);
    text.append("Serializer::class) sealed interface ");
    text.append(export_name);
    text.append(out.as_str());
    text.append(" ");
    text.append(join_all(&subclasses, " ").as_str());
    text.append(" ");
    text.append(object.as_str());
    text
}

/// Each untagged variant's subclass, its `serialize` arm, and the chain of decode attempts so far.
pub open spec fn untagged_parts_text(
    variants: Seq<KotlinVariant>,
    export_name: Seq<char>,
    generic_params: Seq<char>,
    nothing_generic_args: Seq<char>,
    type_parameters: Seq<Seq<char>>,
    names: KotlinNames,
    st: Tuples,
) -> ((Seq<Seq<char>>, Seq<Seq<char>>, Seq<char>), Tuples)
    decreases variants.len(),
{
    if variants.len() == 0 {
        ((Seq::empty(), Seq::empty(), "runCatching { error(\"unreachable\") as Nothing }"@), st)
    } else {
        let ((subclasses, serializes, chain), s1) = untagged_parts_text(
            variants.drop_last(),
            export_name,
            generic_params,
            nothing_generic_args,
            type_parameters,
            names,
            st,
        );
        let variant = variants.last();
        let subclass_name = export_name + variant.rust_name@;
        let (subclass, s2) = variant_subclass_text(
            export_name,
            subclass_name,
            generic_params,
            nothing_generic_args,
            None,
            variant.payload is Value,
            variant.payload,
            names,
            s1,
        );
        let serializer = subclass_serializer_text(subclass_name, type_parameters);
        (
            (
                subclasses.push(subclass),
                serializes.push(
                    "is "@ + subclass_name + " -> output.json.encodeToJsonElement("@ + serializer + ", value)"@,
                ),
                chain + ".recoverCatching { input.json.decodeFromJsonElement("@ + serializer
                    + ", element) as "@ + export_name + generic_params + " }"@,
            ),
            s2,
        )
    }
}

/// An untagged enum: a `sealed interface` bound to a serializer that writes each subclass with
/// its own serializer and reads back the first variant that decodes.
pub open spec fn untagged_text(item: KotlinEnum, names: KotlinNames, st: Tuples) -> (Seq<char>, Tuples) {
    let export_name = item.export_name@;
    let type_parameters = views(item.type_parameters@);
    let (generic_params, nothing, out) = generics_of(type_parameters);
    let ((subclasses, serializes, chain), s1) = untagged_parts_text(
        item.variants@,
        export_name,
        generic_params,
        nothing,
        type_parameters,
        names,
        st,
    );
    (
        "@Serializable(with = "@ + export_name + "Serializer::class) sealed interface "@ + export_name + out
            + " "@ + join(subclasses, " "@) + " "@ + serializer_object_text(
            serializer_declaration_text(export_name, type_parameters),
            export_name,
            generic_params,
            serializes,
            "val element = input.decodeJsonElement(); return "@ + chain
                + ".getOrElse { error(\"No variant of "@ + export_name + " matched\") }"@,
        ),
        s1,
    )
}

#[verifier::spinoff_prover]
pub fn untagged_enum_kotlin_source(item: &KotlinEnum, names: &KotlinNames, tuples: &mut TupleWrappers) -> (text: String)
    ensures
        (text@, tuples_of(*final(tuples))) == untagged_text(*item, *names, tuples_of(*old(tuples))),
{
    let export_name = item.export_name.as_str();
    let generic_params = kotlin_generic_params(&item.type_parameters);
    let nothing = kotlin_nothing_generic_args(&item.type_parameters);
    let out = kotlin_out_generic_params(&item.type_parameters);
    let ghost start = tuples_of(*tuples);
    let mut subclasses: Vec<String> = Vec::new();
    let mut serializes: Vec<String> = Vec::new();
    let mut chain = String::from_str("runCatching { error(\"unreachable\") as Nothing }");
    let mut i: usize = 0;
    while i < item.variants.len()
        invariant
            0 <= i <= item.variants.len(),
            export_name@ == item.export_name@,
            ((views(subclasses@), views(serializes@), chain@), tuples_of(*tuples)) == untagged_parts_text(
                item.variants@.take(i as int),
                export_name@,
                generic_params@,
                nothing@,
                views(item.type_parameters@),
                *names,
                start,
            ),
        decreases item.variants.len() - i,
    {
        assert(item.variants@.take(i + 1).drop_last() =~= item.variants@.take(i as int));
        let variant = &item.variants[i];
        let mut subclass_name = export_name.to_owned();
        subclass_name.append(variant.rust_name.as_str());
        let bare_value = match &variant.payload {
            KotlinPayload::Value(_) => true,
            _ => false,
        };
        let subclass = variant_subclass(
            export_name,
            subclass_name.as_str(),
            generic_params.as_str(),
            nothing.as_str(),
            None,
            bare_value,
            &variant.payload,
            names,
            tuples,
        );
        let serializer = kotlin_subclass_serializer_expr(subclass_name.as_str(), &item.type_parameters);
        let mut serialize = String::from_str("is ");
        serialize.append(subclass_name.as_str());
        serialize.append(" -> output.json.encodeToJsonElement(");
        serialize.append(serializer.as_str());
        serialize.append(", value)");
        chain.append(".recoverCatching { input.json.decodeFromJsonElement(");
        chain.append(serializer.as_str());
        chain.append(", element) as ");
        chain.append(export_name);
        chain.append(generic_params.as_str());
        chain.append(" }");
        let ghost (b1, b2) = (views(subclasses@), views(serializes@));
        subclasses.push(subclass);
        serializes.push(serialize);
        assert(views(subclasses@) =~= b1.push(subclasses@.last()@));
        assert(views(serializes@) =~= b2.push(serializes@.last()@));
        i += 1;
    }
    assert(item.variants@.take(item.variants.len() as int) =~= item.variants@);
    let mut body = String::from_str("val element = input.decodeJsonElement(); return ");
    body.append(chain.as_str());
    body.append(".getOrElse { error(\"No variant of ");
    body.append(export_name);
    body.append(" matched\") }");
    let head = serializer_declaration(export_name, &item.type_parameters);
    let object = serializer_object(head.as_str(), export_name, generic_params.as_str(), &serializes, body.as_str());
    let mut text = String::from_str("@Serializable(with = ");
    text.append(export_name);
    text.append("Serializer::class) sealed interface ");
    text.append(export_name);
    text.append(out.as_str());
    text.append(" ");
    text.append(join_all(&subclasses, " ").as_str());
    text.append(" ");
    text.append(object.as_str());
    text
}

/// One member of an `enum class`: its Rust name, `@SerialName` before it only where the wire
/// spelling differs.
pub open spec fn plain_member_text(variant: KotlinVariant) -> Seq<char> {
    if variant.rust_name@ == variant.wire_tag@ {
        variant.rust_name@
    } else {
        "@SerialName(\""@ + variant.wire_tag@ + "\") "@ + variant.rust_name@
    }
}

/// An enum of unit variants written as bare strings: a serializable `enum class`.
pub open spec fn plain_enum_text(item: KotlinEnum) -> Seq<char> {
    "@Serializable enum class "@ + item.export_name@ + " { "@ + join(
        item.variants@.map_values(|v: KotlinVariant| plain_member_text(v)),
        ", "@,
    ) + " }"@
}

pub fn plain_enum_kotlin_source(item: &KotlinEnum) -> (text: String)
    ensures
        text@ == plain_enum_text(*item),
{
    let ghost variants = item.variants@;
    let mut members: Vec<String> = Vec::new();
    let mut i: usize = 0;
    while i < item.variants.len()
        invariant
            0 <= i <= item.variants.len(),
            variants == item.variants@,
            views(members@) == variants.take(i as int).map_values(|v: KotlinVariant| plain_member_text(v)),
        decreases item.variants.len() - i,
    {
        let variant = &item.variants[i];
        let member = if variant.rust_name == variant.wire_tag {
            variant.rust_name.clone()
        } else {
            let mut member = String::from_str("@SerialName(\"");
            member.append(variant.wire_tag.as_str());
            member.append("\") ");
            member.append(variant.rust_name.as_str());
            member
        };
        let ghost before = views(members@);
        members.push(member);
        assert(views(members@) =~= before.push(member@));
        assert(variants.take(i + 1) =~= variants.take(i as int).push(variants[i as int]));
        assert(variants.take(i + 1).map_values(|v: KotlinVariant| plain_member_text(v)) =~= variants.take(
            i as int,
        ).map_values(|v: KotlinVariant| plain_member_text(v)).push(plain_member_text(variants[i as int])));
        i += 1;
    }
    assert(variants.take(item.variants.len() as int) =~= variants);
    let mut text = String::from_str("@Serializable enum class ");
    text.append(item.export_name.as_str());
    text.append(" { ");
    text.append(join_all(&members, ", ").as_str());
    text.append(" }");
    text
}

/// Whether every variant carries nothing.
pub open spec fn all_unit(variants: Seq<KotlinVariant>) -> bool {
    forall|i: int| 0 <= i < variants.len() ==> (#[trigger] variants[i]).payload is Unit
}

/// The Kotlin an enum publishes: an `enum class` when every variant is a unit written as its bare
/// name, the untagged form when serde reads it untagged, the discriminator form under internal
/// tagging, and the hand-written serializer otherwise.
pub open spec fn enum_text(item: KotlinEnum, names: KotlinNames, st: Tuples) -> (Seq<char>, Tuples) {
    if all_unit(item.variants@) && item.tag is None && item.content is None && !item.untagged {
        (plain_enum_text(item), st)
    } else if item.untagged {
        untagged_text(item, names, st)
    } else if item.tag is Some && item.content is None {
        internal_tagged_text(item, names, st)
    } else {
        dispatched_tagged_text(item, names, st)
    }
}

pub fn enum_kotlin_source(item: &KotlinEnum, names: &KotlinNames, tuples: &mut TupleWrappers) -> (text: String)
    ensures
        (text@, tuples_of(*final(tuples))) == enum_text(*item, *names, tuples_of(*old(tuples))),
{
    let mut unit = true;
    let mut i: usize = 0;
    while i < item.variants.len()
        invariant
            0 <= i <= item.variants.len(),
            unit == all_unit(item.variants@.take(i as int)),
        decreases item.variants.len() - i,
    {
        let this_unit = match &item.variants[i].payload {
            KotlinPayload::Unit => true,
            _ => false,
        };
        proof {
            let next = item.variants@.take(i + 1);
            let prev = item.variants@.take(i as int);
            assert(next =~= prev.push(item.variants@[i as int]));
            if all_unit(next) {
                assert forall|j: int| 0 <= j < prev.len() implies (#[trigger] prev[j]).payload is Unit by {
                    assert(next[j] == prev[j]);
                }
                assert(next[i as int].payload is Unit);
            }
            if all_unit(prev) && this_unit {
                assert forall|j: int| 0 <= j < next.len() implies (#[trigger] next[j]).payload is Unit by {
                    if j < i {
                        assert(next[j] == prev[j]);
                    }
                }
            }
        }
        unit = unit && this_unit;
        i += 1;
    }
    assert(item.variants@.take(item.variants.len() as int) =~= item.variants@);
    if unit && item.tag.is_none() && item.content.is_none() && !item.untagged {
        plain_enum_kotlin_source(item)
    } else if item.untagged {
        untagged_enum_kotlin_source(item, names, tuples)
    } else if item.tag.is_some() && item.content.is_none() {
        internal_tagged_enum_kotlin_source(item, names, tuples)
    } else {
        dispatched_tagged_enum_kotlin_source(item, names, tuples)
    }
}

} // verus!
