//! The Kotlin `http_rest` client: the request and response data classes a hand-written transport
//! carries, the transport interface, one sealed result per reply operation, the refusal a one-way
//! method throws, the client class with one `suspend` method per operation, and the private
//! helpers those methods reach for.
//!
//! A reply method answers `{Service}{Operation}Result`, a sealed interface of `Ok`, `Declared` and
//! `Fault` nested inside it, and never throws for a declared error or a fault. What `Ok` carries
//! is the operation's success, except that a streamed body, a bytes body, and any declared
//! `header_out` each answer more than the bare success type: the record they answer is declared
//! ahead of the sealed result.
use crate::features::dart::tagged::opt_text;
use crate::features::kotlin::{kotlin_typename, kt_type, tuples_of, KotlinNames, TupleWrappers, Tuples};
use crate::features::service_schema::fault::{fault_fields_typescript_name, fields_name};
use crate::features::service_schema::result::{result_name, tuple_elements};
use crate::field_type::{decimal, decimal_text, is_unit_type, unit_type, FieldDef, FieldDefType, Recorded};
use crate::rename_rule::pascal_case;
use crate::rename_rule::{camel_case_of_variant, lower_first};
use crate::service_def::{
    any_body, any_one_way, declares_body, has_one_way, BodyKind, HttpShape, OperationDef, OperationOutcome, ServiceDef,
};
use calls::{client_class, client_class_text, fault_helpers, fault_helpers_text};
use crate::text::{join, join_all, views};
pub mod calls;
pub mod request;
pub mod response;
pub mod wire;

use vstd::prelude::*;

verus! {

/// One `{Service}` call in plain terms; a service declaring a multipart operation carries its
/// parts too.
pub open spec fn request_class_text(named: Seq<char>, has_multipart: bool) -> Seq<char> {
    let parts_field = if has_multipart {
        ",\n  val parts: List<Pair<String, Any?>> = emptyList()"@
    } else {
        ""@
    };
    "/// One `"@ + named + "` call in plain terms: what a hand-written `"@ + named
        + "HttpTransport`\n/// carries to a real HTTP stack. Names no networking library.\ndata class "@
        + named
        + "HttpRequest(\n  val method: String,\n  val path: String,\n  val query: String,\n  val headers: List<Pair<String, String>>,\n  val body: ByteArray"@
        + parts_field + ",\n)"@
}

pub fn request_class(named: &str, has_multipart: bool) -> (text: String)
    ensures
        text@ == request_class_text(named@, has_multipart),
{
    let parts_field = if has_multipart {
        ",\n  val parts: List<Pair<String, Any?>> = emptyList()"
    } else {
        ""
    };
    let mut text = String::from_str("/// One `");
    text.append(named);
    text.append("` call in plain terms: what a hand-written `");
    text.append(named);
    text.append("HttpTransport`\n/// carries to a real HTTP stack. Names no networking library.\ndata class ");
    text.append(named);
    text.append(
        "HttpRequest(\n  val method: String,\n  val path: String,\n  val query: String,\n  val headers: List<Pair<String, String>>,\n  val body: ByteArray",
    );
    text.append(parts_field);
    text.append(",\n)");
    text
}

/// One `{Service}` answer in plain terms; a service declaring a streamed operation carries the
/// body as a flow too.
pub open spec fn response_class_text(named: Seq<char>, has_stream: bool) -> Seq<char> {
    let stream_field = if has_stream {
        ",\n  val bodyStream: Flow<ByteArray> = emptyFlow()"@
    } else {
        ""@
    };
    "/// One `"@ + named + "` answer in plain terms.\ndata class "@ + named
        + "HttpResponse(\n  val status: Int,\n  val headers: List<Pair<String, String>>,\n  val body: ByteArray"@
        + stream_field + ",\n)"@
}

pub fn response_class(named: &str, has_stream: bool) -> (text: String)
    ensures
        text@ == response_class_text(named@, has_stream),
{
    let stream_field = if has_stream {
        ",\n  val bodyStream: Flow<ByteArray> = emptyFlow()"
    } else {
        ""
    };
    let mut text = String::from_str("/// One `");
    text.append(named);
    text.append("` answer in plain terms.\ndata class ");
    text.append(named);
    text.append(
        "HttpResponse(\n  val status: Int,\n  val headers: List<Pair<String, String>>,\n  val body: ByteArray",
    );
    text.append(stream_field);
    text.append(",\n)");
    text
}

/// What binds a client to a real HTTP stack.
pub open spec fn transport_interface_text(named: Seq<char>) -> Seq<char> {
    "/// What binds a `"@ + named
        + "` Kotlin client to a real HTTP stack. A hand-written\n/// implementation over any HTTP client satisfies it; nothing here names one.\ninterface "@
        + named + "HttpTransport {\n  suspend fun send(request: "@ + named + "HttpRequest): "@ + named
        + "HttpResponse\n}"@
}

pub fn transport_interface(named: &str) -> (text: String)
    ensures
        text@ == transport_interface_text(named@),
{
    let mut text = String::from_str("/// What binds a `");
    text.append(named);
    text.append(
        "` Kotlin client to a real HTTP stack. A hand-written\n/// implementation over any HTTP client satisfies it; nothing here names one.\ninterface ",
    );
    text.append(named);
    text.append("HttpTransport {\n  suspend fun send(request: ");
    text.append(named);
    text.append("HttpRequest): ");
    text.append(named);
    text.append("HttpResponse\n}");
    text
}

/// What a one-way method throws when it cannot answer its declared status.
pub open spec fn refusal_class_text(named: Seq<char>) -> Seq<char> {
    "/// What a one-way `"@ + named
        + "` `http_rest` method throws when it cannot answer its\n/// declared status. A one-way operation declares no error, so there is nothing else to\n/// throw.\nclass "@
        + named + "Refusal(val fault: "@ + fields_name(named) + ") : Exception(fault.detail)"@
}

pub fn refusal_class(named: &str) -> (text: String)
    ensures
        text@ == refusal_class_text(named@),
{
    let fields = fault_fields_typescript_name(named);
    let mut text = String::from_str("/// What a one-way `");
    text.append(named);
    text.append(
        "` `http_rest` method throws when it cannot answer its\n/// declared status. A one-way operation declares no error, so there is nothing else to\n/// throw.\nclass ",
    );
    text.append(named);
    text.append("Refusal(val fault: ");
    text.append(fields.as_str());
    text.append(") : Exception(fault.detail)");
    text
}

/// Whether a reply operation's success carries nothing at all: a unit success, on a JSON or
/// multipart body, with no declared `header_out`.
pub open spec fn carries_nothing(operation: OperationDef, recorded: Recorded) -> bool {
    match operation.outcome {
        OperationOutcome::Reply { success, .. } => {
            &&& (operation.http.body_kind == BodyKind::Json || operation.http.body_kind == BodyKind::Multipart)
            &&& operation.http.header_out@.len() == 0
            &&& unit_type(success, recorded)
        },
        OperationOutcome::OneWay => false,
    }
}

pub fn carries_no_value(operation: &OperationDef, recorded: &Recorded) -> (nothing: bool)
    ensures
        nothing == carries_nothing(*operation, *recorded),
{
    match &operation.outcome {
        OperationOutcome::Reply { success, .. } => {
            (operation.http.body_kind == BodyKind::Json || operation.http.body_kind == BodyKind::Multipart)
                && operation.http.header_out.len() == 0 && is_unit_type(success, recorded)
        },
        OperationOutcome::OneWay => false,
    }
}

/// How many declared `header_out` entries a success tuple carries past its first `skip`
/// elements: one per declared name, as far as the tuple reaches.
pub open spec fn header_field_count(declared: nat, whole: FieldDef, skip: nat) -> nat {
    let elements = tuple_elements(whole).len();
    if elements <= skip {
        0
    } else if declared < elements - skip {
        declared
    } else {
        (elements - skip) as nat
    }
}

/// One `val headerOutN: Type` per declared response header, typed as the success tuple's element
/// past the body.
pub open spec fn header_fields_text(
    whole: FieldDef,
    skip: nat,
    count: nat,
    names: KotlinNames,
    st: Tuples,
) -> (Seq<Seq<char>>, Tuples)
    decreases count,
{
    if count == 0 {
        (Seq::empty(), st)
    } else {
        let (before, s1) = header_fields_text(whole, skip, (count - 1) as nat, names, st);
        let i = (count - 1) as nat;
        let (ty, s2) = kt_type(tuple_elements(whole)[(skip + i) as int], names, s1);
        (before.push("val headerOut"@ + decimal(i) + ": "@ + ty), s2)
    }
}

/// Pushes one `val headerOutN: Type` per declared response header onto `params`.
fn push_header_fields(
    params: &mut Vec<String>,
    whole: &FieldDef,
    declared: usize,
    skip: usize,
    names: &KotlinNames,
    tuples: &mut TupleWrappers,
)
    requires
        skip <= 2,
    ensures
        ({
            let (fields, after) = header_fields_text(
                *whole,
                skip as nat,
                header_field_count(declared as nat, *whole, skip as nat),
                *names,
                tuples_of(*old(tuples)),
            );
            views(final(params)@) == views(old(params)@) + fields && tuples_of(*final(tuples)) == after
        }),
{
    let ghost start = tuples_of(*tuples);
    let ghost head = views(params@);
    let no_elements: Vec<FieldDef> = Vec::new();
    let elements = match &whole.field_type {
        FieldDefType::Tuple(elements) => elements,
        _ => &no_elements,
    };
    assert(elements@ == tuple_elements(*whole));
    let count = if elements.len() <= skip {
        0
    } else if declared < elements.len() - skip {
        declared
    } else {
        elements.len() - skip
    };
    let mut i: usize = 0;
    while i < count
        invariant
            0 <= i <= count,
            skip <= 2,
            count == header_field_count(declared as nat, *whole, skip as nat),
            count == 0 || skip + count <= elements.len(),
            elements@ == tuple_elements(*whole),
            ({
                let (fields, after) = header_fields_text(*whole, skip as nat, i as nat, *names, start);
                views(params@) == head + fields && tuples_of(*tuples) == after
            }),
        decreases count - i,
    {
        let ty = kotlin_typename(&elements[skip + i], names, tuples);
        let mut field = String::from_str("val headerOut");
        field.append(decimal_text(i as u64).as_str());
        field.append(": ");
        field.append(ty.as_str());
        let ghost before = views(params@);
        params.push(field);
        assert(views(params@) =~= before.push(field@));
        i += 1;
    }
}

/// The success's body portion: the first element of its tuple, or the success itself.
pub open spec fn body_element_of(success: FieldDef) -> FieldDef {
    if tuple_elements(success).len() > 0 {
        tuple_elements(success)[0]
    } else {
        success
    }
}

pub(crate) fn body_element_type(success: &FieldDef) -> (body: &FieldDef)
    ensures
        *body == body_element_of(*success),
{
    match &success.field_type {
        FieldDefType::Tuple(elements) => if elements.len() > 0 {
            &elements[0]
        } else {
            success
        },
        _ => success,
    }
}

/// What `Ok` carries for one reply operation, and the record declared ahead of the sealed result
/// where the operation answers more than its bare success.
pub struct SuccessShape {
    pub aux_declaration: Option<String>,
    pub kotlin_type: String,
}

/// The data class a composed success is declared as.
pub open spec fn data_class_text(kotlin_type: Seq<char>, params: Seq<Seq<char>>) -> Seq<char> {
    "data class "@ + kotlin_type + "("@ + join(params, ", "@) + ")"@
}

/// A streamed body answers `{Result}Streamed` (the range, the body as a flow, then each header);
/// a bytes body `{Result}Bytes` (the bytes, the content type, then each header); a JSON or
/// multipart body its success type, or `{Result}Value` (the value, then each header) where it
/// declared `header_out`.
pub open spec fn success_shape_text(
    published: Seq<char>,
    shape: HttpShape,
    success: FieldDef,
    names: KotlinNames,
    st: Tuples,
) -> ((Option<Seq<char>>, Seq<char>), Tuples) {
    let declared = shape.header_out@.len();
    match shape.body_kind {
        BodyKind::Stream => {
            let kotlin_type = published + "Streamed"@;
            let (extra, s1) = header_fields_text(success, 1, header_field_count(declared, success, 1), names, st);
            let params = seq!["val contentRange: String?"@, "val body: Flow<ByteArray>"@] + extra;
            ((Some(data_class_text(kotlin_type, params)), kotlin_type), s1)
        },
        BodyKind::Bytes => {
            let kotlin_type = published + "Bytes"@;
            let (extra, s1) = header_fields_text(success, 2, header_field_count(declared, success, 2), names, st);
            let params = seq!["val body: ByteArray"@, "val contentType: String"@] + extra;
            ((Some(data_class_text(kotlin_type, params)), kotlin_type), s1)
        },
        _ => if declared == 0 {
            let (ty, s1) = kt_type(success, names, st);
            ((None, ty), s1)
        } else {
            let kotlin_type = published + "Value"@;
            let (value_ty, s1) = kt_type(body_element_of(success), names, st);
            let (extra, s2) = header_fields_text(success, 1, header_field_count(declared, success, 1), names, s1);
            let params = seq!["val value: "@ + value_ty] + extra;
            ((Some(data_class_text(kotlin_type, params)), kotlin_type), s2)
        },
    }
}

fn data_class(kotlin_type: &str, params: &Vec<String>) -> (text: String)
    ensures
        text@ == data_class_text(kotlin_type@, views(params@)),
{
    let mut text = String::from_str("data class ");
    text.append(kotlin_type);
    text.append("(");
    text.append(join_all(params, ", ").as_str());
    text.append(")");
    text
}

pub fn success_shape(
    published: &str,
    shape: &HttpShape,
    success: &FieldDef,
    names: &KotlinNames,
    tuples: &mut TupleWrappers,
) -> (answer: SuccessShape)
    ensures
        ((opt_text(answer.aux_declaration), answer.kotlin_type@), tuples_of(*final(tuples))) == success_shape_text(
            published@,
            *shape,
            *success,
            *names,
            tuples_of(*old(tuples)),
        ),
{
    let declared = shape.header_out.len();
    match shape.body_kind {
        BodyKind::Stream => {
            let mut kotlin_type = published.to_owned();
            kotlin_type.append("Streamed");
            let mut params: Vec<String> = Vec::new();
            params.push(String::from_str("val contentRange: String?"));
            params.push(String::from_str("val body: Flow<ByteArray>"));
            assert(views(params@) =~= seq!["val contentRange: String?"@, "val body: Flow<ByteArray>"@]);
            push_header_fields(&mut params, success, declared, 1, names, tuples);
            SuccessShape { aux_declaration: Some(data_class(kotlin_type.as_str(), &params)), kotlin_type }
        },
        BodyKind::Bytes => {
            let mut kotlin_type = published.to_owned();
            kotlin_type.append("Bytes");
            let mut params: Vec<String> = Vec::new();
            params.push(String::from_str("val body: ByteArray"));
            params.push(String::from_str("val contentType: String"));
            assert(views(params@) =~= seq!["val body: ByteArray"@, "val contentType: String"@]);
            push_header_fields(&mut params, success, declared, 2, names, tuples);
            SuccessShape { aux_declaration: Some(data_class(kotlin_type.as_str(), &params)), kotlin_type }
        },
        _ => {
            if declared == 0 {
                return SuccessShape { aux_declaration: None, kotlin_type: kotlin_typename(success, names, tuples) };
            }
            let mut kotlin_type = published.to_owned();
            kotlin_type.append("Value");
            let value_ty = kotlin_typename(body_element_type(success), names, tuples);
            let mut value = String::from_str("val value: ");
            value.append(value_ty.as_str());
            let mut params: Vec<String> = Vec::new();
            params.push(value);
            assert(views(params@) =~= seq![value@]);
            push_header_fields(&mut params, success, declared, 1, names, tuples);
            SuccessShape { aux_declaration: Some(data_class(kotlin_type.as_str(), &params)), kotlin_type }
        },
    }
}

/// The sealed result one reply operation answers: `Ok` carrying the success (a `data object` where
/// it carries nothing), `Declared` carrying the declared error, `Fault` carrying a fault. A
/// one-way operation has none.
pub open spec fn result_interface_text(
    named: Seq<char>,
    operation: OperationDef,
    recorded: Recorded,
    names: KotlinNames,
    st: Tuples,
) -> (Option<Seq<char>>, Tuples) {
    match operation.outcome {
        OperationOutcome::OneWay => (None, st),
        OperationOutcome::Reply { error, success } => {
            let published = named + pascal_case(operation.ident@) + "Result"@;
            let (error_ty, s1) = kt_type(error, names, st);
            let ((aux, ok_member), s2) = if carries_nothing(operation, recorded) {
                ((Seq::empty(), "  data object Ok : "@ + published), s1)
            } else {
                let ((declaration, kotlin_type), s) = success_shape_text(published, operation.http, success, names, s1);
                let aux = match declaration {
                    Some(declared) => declared + "\n"@,
                    None => Seq::empty(),
                };
                ((aux, "  data class Ok(val value: "@ + kotlin_type + ") : "@ + published), s)
            };
            (
                Some(
                    "/// What `"@ + operation.ident@ + "` on `"@ + named
                        + "` answers: the success, the error the operation declared, or a\n/// fault it never declared.\n"@
                        + aux + "sealed interface "@ + published + " {\n"@ + ok_member
                        + "\n  data class Declared(val error: "@ + error_ty + ") : "@ + published
                        + "\n  data class Fault(val fault: "@ + fields_name(named) + ") : "@ + published
                        + "\n}"@,
                ),
                s2,
            )
        },
    }
}

pub fn result_interface(
    named: &str,
    operation: &OperationDef,
    recorded: &Recorded,
    names: &KotlinNames,
    tuples: &mut TupleWrappers,
) -> (text: Option<String>)
    ensures
        (opt_text(text), tuples_of(*final(tuples))) == result_interface_text(
            named@,
            *operation,
            *recorded,
            *names,
            tuples_of(*old(tuples)),
        ),
{
    let (error, success) = match &operation.outcome {
        OperationOutcome::OneWay => {
            return None;
        },
        OperationOutcome::Reply { error, success } => (error, success),
    };
    let published = match result_name(named, operation) {
        Some(published) => published,
        None => {
            return None;
        },
    };
    let error_ty = kotlin_typename(error, names, tuples);
    let fault = fault_fields_typescript_name(named);
    let (aux, ok_member) = if carries_no_value(operation, recorded) {
        let mut ok_member = String::from_str("  data object Ok : ");
        ok_member.append(published.as_str());
        (String::new(), ok_member)
    } else {
        let shape_info = success_shape(published.as_str(), &operation.http, success, names, tuples);
        let aux = match shape_info.aux_declaration {
            Some(declared) => {
                let mut aux = declared;
                aux.append("\n");
                aux
            },
            None => String::new(),
        };
        let mut ok_member = String::from_str("  data class Ok(val value: ");
        ok_member.append(shape_info.kotlin_type.as_str());
        ok_member.append(") : ");
        ok_member.append(published.as_str());
        (aux, ok_member)
    };
    let mut text = String::from_str("/// What `");
    text.append(operation.ident.as_str());
    text.append("` on `");
    text.append(named);
    text.append(
        "` answers: the success, the error the operation declared, or a\n/// fault it never declared.\n",
    );
    text.append(aux.as_str());
    text.append("sealed interface ");
    text.append(published.as_str());
    text.append(" {\n");
    text.append(ok_member.as_str());
    text.append("\n  data class Declared(val error: ");
    text.append(error_ty.as_str());
    text.append(") : ");
    text.append(published.as_str());
    text.append("\n  data class Fault(val fault: ");
    text.append(fault.as_str());
    text.append(") : ");
    text.append(published.as_str());
    text.append("\n}");
    Some(text)
}

/// One sealed result per reply operation, in declaration order.
pub open spec fn result_interfaces_text(
    named: Seq<char>,
    operations: Seq<OperationDef>,
    recorded: Recorded,
    names: KotlinNames,
    st: Tuples,
) -> (Seq<Seq<char>>, Tuples)
    decreases operations.len(),
{
    if operations.len() == 0 {
        (Seq::empty(), st)
    } else {
        let (before, s1) = result_interfaces_text(named, operations.drop_last(), recorded, names, st);
        match result_interface_text(named, operations.last(), recorded, names, s1) {
            (Some(text), s2) => (before.push(text), s2),
            (None, s2) => (before, s2),
        }
    }
}

pub fn result_interfaces(service: &ServiceDef, named: &str, names: &KotlinNames, tuples: &mut TupleWrappers) -> (published:
    Vec<String>)
    ensures
        (views(published@), tuples_of(*final(tuples))) == result_interfaces_text(
            named@,
            service.operations@,
            service.recorded,
            *names,
            tuples_of(*old(tuples)),
        ),
{
    let ghost start = tuples_of(*tuples);
    let mut published: Vec<String> = Vec::new();
    let mut i: usize = 0;
    while i < service.operations.len()
        invariant
            0 <= i <= service.operations.len(),
            (views(published@), tuples_of(*tuples)) == result_interfaces_text(
                named@,
                service.operations@.take(i as int),
                service.recorded,
                *names,
                start,
            ),
        decreases service.operations.len() - i,
    {
        assert(service.operations@.take(i + 1).drop_last() =~= service.operations@.take(i as int));
        match result_interface(named, &service.operations[i], &service.recorded, names, tuples) {
            Some(text) => {
                let ghost before = views(published@);
                published.push(text);
                assert(views(published@) =~= before.push(published@.last()@));
            },
            None => {},
        }
        i += 1;
    }
    assert(service.operations@.take(service.operations.len() as int) =~= service.operations@);
    published
}

/// Everything the client publishes, in order: the request, the response and the transport, one
/// sealed result per reply operation, the refusal where an operation is one-way, the client
/// class, and its helpers.
pub open spec fn emit_text(service: ServiceDef, names: KotlinNames, st: Tuples) -> (Seq<Seq<char>>, Tuples) {
    let named = service.ident@;
    let fn_prefix = lower_first(named);
    let has_multipart = any_body(service.operations@, BodyKind::Multipart);
    let has_stream = any_body(service.operations@, BodyKind::Stream);
    let seam = seq![
        request_class_text(named, has_multipart),
        response_class_text(named, has_stream),
        transport_interface_text(named),
    ];
    let (results, s1) = result_interfaces_text(named, service.operations@, service.recorded, names, st);
    let refusal = if any_one_way(service.operations@) {
        seq![refusal_class_text(named)]
    } else {
        Seq::empty()
    };
    let (client, s2) = client_class_text(service, fn_prefix, has_multipart, names, s1);
    (seam + results + refusal + seq![client] + fault_helpers_text(service, fn_prefix), s2)
}

pub fn emit(service: &ServiceDef, names: &KotlinNames, tuples: &mut TupleWrappers) -> (published: Vec<String>)
    ensures
        (views(published@), tuples_of(*final(tuples))) == emit_text(*service, *names, tuples_of(*old(tuples))),
{
    let named = service.ident.as_str();
    let fn_prefix = camel_case_of_variant(named);
    let has_multipart = declares_body(service, BodyKind::Multipart);
    let has_stream = declares_body(service, BodyKind::Stream);
    let mut published: Vec<String> = Vec::new();
    published.push(request_class(named, has_multipart));
    published.push(response_class(named, has_stream));
    published.push(transport_interface(named));
    let ghost seam = views(published@);
    let mut results = result_interfaces(service, named, names, tuples);
    let ghost result_views = views(results@);
    published.append(&mut results);
    assert(views(published@) =~= seam + result_views);
    if has_one_way(service) {
        published.push(refusal_class(named));
    }
    let ghost before_client = views(published@);
    let client = client_class(service, fn_prefix.as_str(), has_multipart, names, tuples);
    published.push(client);
    let mut helpers = fault_helpers(service, fn_prefix.as_str());
    let ghost helper_views = views(helpers@);
    let ghost with_client = views(published@);
    published.append(&mut helpers);
    assert(views(published@) =~= with_client + helper_views);
    published
}

} // verus!
