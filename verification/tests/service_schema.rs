//! What a service publishes, read off the strings themselves.
//!
//! Each fixture is the description the service's trait declaration parses into: its operations'
//! names, messages, outcomes and HTTP bindings, every type already described.

use tixschema::features::service_schema::{emit, result};
use tixschema::features::kotlin::{KotlinNames, TupleWrappers};
use tixschema::features::Features;
use tixschema::field_type::{FieldDef, FieldDefType, MapKeyWire, Recorded};
use tixschema::service_def::{
    BodyKind, HttpMethod, HttpShape, InputField, OperationDef, OperationInputs, OperationOutcome,
    PathSegment, ServiceDef,
};

fn typed(field_type: FieldDefType) -> FieldDef {
    FieldDef {
        field_type,
        array_depth: 0,
        nullable_levels: Vec::new(),
        optional: false,
        as_number: false,
        nullable: false,
        map_key_wire: MapKeyWire::Named,
        parameter_shape: false,
    }
}

fn named(name: &str) -> FieldDef {
    typed(FieldDefType::SiblingType(name.to_owned(), Vec::new()))
}

fn unit() -> FieldDef {
    typed(FieldDefType::Tuple(Vec::new()))
}

fn shape(method: HttpMethod, path: &[&str], body_kind: BodyKind, header_out: &[&str]) -> HttpShape {
    HttpShape {
        method,
        path: path
            .iter()
            .map(|segment| match segment.strip_prefix('{') {
                Some(rest) => PathSegment::Placeholder(rest.trim_end_matches('}').to_owned()),
                None => PathSegment::Literal((*segment).to_owned()),
            })
            .collect(),
        body_kind,
        header_in: Vec::new(),
        header_out: header_out.iter().map(|name| (*name).to_owned()).collect(),
        error_header_out: Vec::new(),
        ok_status: 200,
        error_status: Vec::new(),
        multipart_parts: Vec::new(),
    }
}

fn operation(
    ident: &str,
    ts_name: &str,
    generated_message: Option<&str>,
    inputs: OperationInputs,
    outcome: OperationOutcome,
    http: HttpShape,
) -> OperationDef {
    OperationDef {
        ident: ident.to_owned(),
        ts_name: ts_name.to_owned(),
        wire_name: ident.to_owned(),
        generated_message: generated_message.map(str::to_owned),
        inputs,
        scalar_message: false,
        outcome,
        http,
    }
}

fn reply(success: FieldDef, error: &str) -> OperationOutcome {
    OperationOutcome::Reply {
        error: named(error),
        success,
    }
}

fn rpc_shape(ident: &str) -> HttpShape {
    shape(HttpMethod::Post, &["", ident], BodyKind::Json, &[])
}

/// `UsageService`: a named message, an argument list, no arguments at all, and a one-way
/// operation that answers nothing.
fn mixed_service() -> ServiceDef {
    ServiceDef {
        ident: "UsageService".to_owned(),
        operations: vec![
            operation(
                "get_available_balance",
                "getAvailableBalance",
                None,
                OperationInputs::Named(named("AvailableBalanceRequest")),
                reply(named("AvailableBalanceResponse"), "BalanceError"),
                rpc_shape("get_available_balance"),
            ),
            operation(
                "expire_credit",
                "expireCredit",
                Some("ExpireCreditRequest"),
                OperationInputs::Generated(vec![
                    InputField {
                        ident: "organization_id".to_owned(),
                        wire_key: "organizationId".to_owned(),
                        ty: named("OrganizationId"),
                    },
                    InputField {
                        ident: "credit_id".to_owned(),
                        wire_key: "creditId".to_owned(),
                        ty: named("CreditId"),
                    },
                ]),
                reply(named("ExpiredCredit"), "CreditWriteError"),
                rpc_shape("expire_credit"),
            ),
            operation(
                "sweep",
                "sweep",
                Some("SweepRequest"),
                OperationInputs::Empty,
                reply(named("SweepReport"), "BalanceError"),
                rpc_shape("sweep"),
            ),
            operation(
                "apply_bundle",
                "applyBundle",
                None,
                OperationInputs::Named(named("ApplyBundleRequest")),
                OperationOutcome::OneWay,
                rpc_shape("apply_bundle"),
            ),
        ],
        generated_messages: vec!["ExpireCreditRequest".to_owned(), "SweepRequest".to_owned()],
        recorded: Recorded {
            unit_structs: Vec::new(),
            untagged_enums: Vec::new(),
        },
        default_error_status: 422,
    }
}

/// `PingClientService`, whose one operation answers `success` on success.
fn ping_service(success: FieldDef, unit_structs: &[&str]) -> ServiceDef {
    ServiceDef {
        ident: "PingClientService".to_owned(),
        operations: vec![operation(
            "ping",
            "ping",
            None,
            OperationInputs::Named(named("PingRequest")),
            reply(success, "PingError"),
            shape(HttpMethod::Post, &["", "v1", "ping"], BodyKind::Json, &[]),
        )],
        generated_messages: Vec::new(),
        recorded: Recorded {
            unit_structs: unit_structs.iter().map(|name| (*name).to_owned()).collect(),
            untagged_enums: Vec::new(),
        },
        default_error_status: 422,
    }
}

/// `ContentClientService`: two streamed operations, the second composing a `header_out`.
fn stream_http_service() -> ServiceDef {
    let file_id = || {
        OperationInputs::Generated(vec![InputField {
            ident: "file_id".to_owned(),
            wire_key: "fileId".to_owned(),
            ty: typed(FieldDefType::String),
        }])
    };
    ServiceDef {
        ident: "ContentClientService".to_owned(),
        operations: vec![
            operation(
                "get_file",
                "getFile",
                Some("GetFileRequest"),
                file_id(),
                reply(named("StreamedAnswer"), "ContentError"),
                shape(HttpMethod::Get, &["", "files", "{file_id}"], BodyKind::Stream, &[]),
            ),
            operation(
                "get_tagged_file",
                "getTaggedFile",
                Some("GetTaggedFileRequest"),
                file_id(),
                reply(
                    typed(FieldDefType::Tuple(vec![
                        named("StreamedAnswer"),
                        typed(FieldDefType::String),
                    ])),
                    "ContentError",
                ),
                shape(
                    HttpMethod::Get,
                    &["", "files", "{file_id}", "tagged"],
                    BodyKind::Stream,
                    &["x-checksum"],
                ),
            ),
        ],
        generated_messages: vec!["GetFileRequest".to_owned(), "GetTaggedFileRequest".to_owned()],
        recorded: Recorded {
            unit_structs: Vec::new(),
            untagged_enums: Vec::new(),
        },
        default_error_status: 422,
    }
}

fn build(zod: bool, dart: bool, kotlin: bool) -> Features {
    Features {
        serde: true,
        zod,
        jsonschema: false,
        object_id: false,
        typescript: true,
        chrono: false,
        dart,
        kotlin,
        swift: false,
    }
}

/// The registry as the compiler reads it: parsed into tokens, then printed.
fn registration_in(service: &ServiceDef, features: &Features) -> String {
    let names = KotlinNames { entries: Vec::new() };
    let mut tuples = TupleWrappers {
        counter: 0,
        aux: Vec::new(),
    };
    emit(service, features, &names, &mut tuples)
        .parse::<proc_macro2::TokenStream>()
        .unwrap()
        .to_string()
}

fn registration(service: &ServiceDef) -> String {
    registration_in(service, &build(true, false, false))
}

#[test]
fn a_one_way_operation_gets_no_result_type() {
    let published = result::emit(&mixed_service());
    assert_eq!(published.len(), 3, "got: {published:?}");
    assert!(
        !published
            .iter()
            .any(|ts| ts.contains("UsageServiceApplyBundleResult")),
        "an operation that declared no reply has no arms to join. Got: {published:?}"
    );
}

#[test]
fn every_declared_message_is_registered_with_the_service() {
    let rendered = registration(&mixed_service());
    for declared in ["ExpireCreditRequest", "SweepRequest"] {
        assert!(
            rendered.contains(&format!("{declared} :: ts_definition")),
            "a message the macro declared reaches the bundle through the service's own line. \
             Got: {rendered}"
        );
    }
    assert!(
        !rendered.contains("AvailableBalanceRequest :: ts_definition"),
        "the message the author declared is registered by the author, not here. Got: {rendered}"
    );
}

#[test]
fn the_bundle_line_hangs_off_a_struct_named_for_the_service() {
    let rendered = registration(&mixed_service());
    assert!(
        rendered.contains("pub struct UsageServiceSchema"),
        "got: {rendered}"
    );
    assert!(
        rendered.contains("impl UsageServiceSchema"),
        "got: {rendered}"
    );
}

#[test]
fn the_fault_s_fields_are_asked_for_rather_than_written_here() {
    let rendered = registration(&mixed_service());
    for asked in [
        "usage_service_schema :: UsageServiceFaultFields :: ts_definition",
        "usage_service_schema :: UsageServiceFaultKind :: ts_definition",
    ] {
        assert!(
            rendered.contains(asked),
            "the fault's TypeScript comes from the same declaration the Rust dispatcher builds \
             faults from, never from a literal beside it. Got: {rendered}"
        );
    }
    assert!(
        !rendered.contains("export type ServiceFault ="),
        "a hand-maintained literal beside a generated type is how the two drift. Got: {rendered}"
    );
    for member in ["detail:", "field:", "kind:", "operation:"] {
        assert!(
            !rendered.contains(&format!("export type UsageServiceFault = {{\\n  {member}")),
            "the seal adds a brand and nothing else; the members stay the Rust declaration's. \
             Got: {rendered}"
        );
    }
}

#[test]
fn the_published_fault_is_the_asked_for_fields_under_a_brand_the_bundle_exports_nowhere() {
    let rendered = registration(&mixed_service());
    assert!(
        rendered.contains("declare const usageServiceFaultSeal: unique symbol;"),
        "a brand keyed on an exported name is a brand anyone can write. Got: {rendered}"
    );
    assert!(
        !rendered.contains("export declare const usageServiceFaultSeal"),
        "an exported symbol is one an implementation can name, and a property it can write. \
         Got: {rendered}"
    );
    assert!(
        rendered.contains(
            "export type UsageServiceFault = UsageServiceFaultFields & {\\n  readonly \
             [usageServiceFaultSeal]: true;\\n};"
        ),
        "the fault a caller names is the fields the Rust declaration published, plus the brand. \
         Got: {rendered}"
    );
}

#[test]
fn the_result_joins_the_two_declared_arms_and_adds_nothing_to_either() {
    let published = result::emit(&mixed_service());
    let found = published
        .iter()
        .find(|ts| ts.contains("export type UsageServiceGetAvailableBalanceResult ="));
    assert!(found.is_some(), "got: {published:?}");
    let balance = found.unwrap();
    assert!(
        balance.contains("| { ok: true; value: AvailableBalanceResponse }"),
        "got: {balance}"
    );
    assert!(
        balance.contains(
            "| { ok: false; error: BalanceError | { isServiceFault: true; fault: \
             UsageServiceFault } };"
        ),
        "got: {balance}"
    );
}

#[test]
fn a_unit_success_result_type_says_the_value_is_undefined() {
    let published = result::emit(&ping_service(unit(), &[]));
    let found = published
        .iter()
        .find(|ts| ts.contains("export type PingClientServicePingResult ="));
    assert!(found.is_some(), "got: {published:?}");
    assert!(
        found.unwrap().contains("| { ok: true; value: undefined }"),
        "got: {found:?}"
    );
}

#[test]
fn an_unrecorded_success_type_is_not_treated_as_a_unit_success() {
    let published = result::emit(&ping_service(named("PingAck"), &[]));
    let found = published
        .iter()
        .find(|ts| ts.contains("export type PingClientServicePingResult ="));
    assert!(found.is_some(), "got: {published:?}");
    assert!(
        found.unwrap().contains("| { ok: true; value: PingAck }"),
        "got: {found:?}"
    );
}

#[test]
fn a_unit_struct_success_result_type_says_the_value_is_undefined() {
    let published = result::emit(&ping_service(named("PingAck"), &["PingAck"]));
    let found = published
        .iter()
        .find(|ts| ts.contains("export type PingClientServicePingResult ="));
    assert!(found.is_some(), "got: {published:?}");
    assert!(
        found.unwrap().contains("| { ok: true; value: undefined }"),
        "got: {found:?}"
    );
}

#[test]
fn the_result_answers_the_streamed_record_rather_than_the_undescribable_rust_type() {
    let published = result::emit(&stream_http_service());
    let found = published
        .iter()
        .find(|ts| ts.contains("export type ContentClientServiceGetFileResult ="));
    assert!(found.is_some(), "got: {published:?}");
    let result = found.unwrap();
    assert!(
        result.contains(
            "| { ok: true; value: { contentRange: string | undefined; body: \
             ReadableStream<Uint8Array> } }"
        ),
        "got: {result}"
    );
    assert!(
        !result.contains("StreamedAnswer"),
        "the Rust-only seam type never leaks into the published TypeScript. Got: {result}"
    );
}

#[test]
fn the_result_composes_header_out_onto_the_streamed_record_in_a_tuple() {
    let published = result::emit(&stream_http_service());
    let found = published
        .iter()
        .find(|ts| ts.contains("export type ContentClientServiceGetTaggedFileResult ="));
    assert!(found.is_some(), "got: {published:?}");
    let result = found.unwrap();
    assert!(
        result.contains(
            "| { ok: true; value: [{ contentRange: string | undefined; body: \
             ReadableStream<Uint8Array> }, string] }"
        ),
        "got: {result}"
    );
}

#[test]
fn the_result_takes_its_name_from_the_service_and_the_operation() {
    let published = result::emit(&mixed_service());
    for named in [
        "UsageServiceGetAvailableBalanceResult",
        "UsageServiceExpireCreditResult",
        "UsageServiceSweepResult",
    ] {
        assert!(
            published
                .iter()
                .any(|ts| ts.contains(&format!("export type {named} ="))),
            "a bundle carrying ten services is one flat file, so every name carries the service. \
             Got: {published:?}"
        );
    }
    assert!(
        !published
            .iter()
            .any(|ts| ts.contains("export type SweepResult =")),
        "an unprefixed result collides with any other service declaring the same operation. \
         Got: {published:?}"
    );
}

#[test]
fn two_operations_naming_unrelated_errors_keep_them_apart() {
    let published = result::emit(&mixed_service());
    let found = published
        .iter()
        .find(|ts| ts.contains("export type UsageServiceExpireCreditResult ="));
    assert!(found.is_some(), "got: {published:?}");
    let expire = found.unwrap();
    assert!(
        expire.contains("error: CreditWriteError |"),
        "an operation's failure arm carries the error that operation declared, not the service's. \
         Got: {expire}"
    );
}

#[test]
fn a_build_that_publishes_no_schema_publishes_no_client_and_no_dispatcher() {
    let rendered = registration_in(&mixed_service(), &build(false, false, false));
    for withheld in [
        "pub fn ts_client",
        "pub fn ts_http_client",
        "pub fn ts_service",
        "pub fn ts_ws_client",
        "pub fn ts_ws_service",
        "pub fn ts_ws_server",
    ] {
        assert!(
            !rendered.contains(withheld),
            "an artifact that cannot hold the guarantee its callers are written against is not \
             published at all. Got: {rendered}"
        );
    }
    assert!(
        rendered.contains("pub fn ts_definition"),
        "the types describe what the Rust half puts on the wire and are true either way. \
         Got: {rendered}"
    );
}

#[test]
fn a_build_that_publishes_no_client_says_on_the_registry_why_not() {
    let rendered = registration_in(&mixed_service(), &build(false, false, false));
    for said in [
        "This build publishes no `UsageServiceSchema::ts_client()`, no \
         `UsageServiceSchema::ts_http_client()`, no `UsageServiceSchema::ts_http_service()`, no \
         `UsageServiceSchema::ts_service()`, no `UsageServiceSchema::ts_ws_client()`, no \
         `UsageServiceSchema::ts_ws_service()`, and no `UsageServiceSchema::ts_ws_server()`.",
        "The first six parse a message against the schema",
        "leaves the seven seam artifacts out",
        "only a build with tixschema's `zod` feature writes one",
        "Add `features = [\\\"zod\\\"]` to the tixschema dependency to get them.",
    ] {
        assert!(
            rendered.contains(said),
            "the registry's own rustdoc names the feature and what to add. Got: {rendered}"
        );
    }
}

#[test]
fn a_build_that_publishes_no_schema_publishes_no_http_service_either() {
    let rendered = registration_in(&mixed_service(), &build(false, false, false));
    assert!(
        !rendered.contains("pub fn ts_http_service"),
        "got: {rendered}"
    );
}

#[test]
fn a_build_that_publishes_no_client_still_publishes_every_type_the_wire_carries() {
    let rendered = registration_in(&mixed_service(), &build(false, false, false));
    for asked in [
        "ExpireCreditRequest :: ts_definition",
        "usage_service_schema :: UsageServiceFaultFields :: ts_definition",
        "declare const usageServiceFaultSeal: unique symbol;",
        "export type UsageServiceGetAvailableBalanceResult =",
    ] {
        assert!(
            rendered.contains(asked),
            "the types are what a hand-written caller of this service reads, and nothing about \
             them depends on the Zod surface. Got: {rendered}"
        );
    }
}

#[test]
fn a_declared_message_brings_its_schema_along_with_its_type() {
    let rendered = registration(&mixed_service());
    assert!(
        rendered.contains("ExpireCreditRequest :: zod_schema"),
        "the schema has no registration line of its own either. Got: {rendered}"
    );
}

#[test]
fn dart_definition_asks_for_the_generated_messages_a_declared_message_is_registered_by_hand() {
    let rendered = registration_in(&mixed_service(), &build(true, true, false));
    for declared in ["expire_credit_request_dart", "sweep_request_dart"] {
        assert!(
            rendered.contains(&format!("{declared} :: dart_definition")),
            "a message the macro declared reaches the bundle through the service's own line. \
             Got: {rendered}"
        );
    }
    assert!(
        !rendered.contains("available_balance_request_dart"),
        "the message the author declared is registered by the author, not here. Got: {rendered}"
    );
}

#[test]
fn a_build_with_kotlin_publishes_kotlin_http_client() {
    let rendered = registration_in(&mixed_service(), &build(true, false, true));
    assert!(
        rendered.contains("pub fn kotlin_http_client"),
        "got: {rendered}"
    );
}

#[test]
fn a_build_without_kotlin_publishes_no_kotlin_http_client() {
    let rendered = registration_in(&mixed_service(), &build(true, false, false));
    assert!(
        !rendered.contains("kotlin_http_client"),
        "an artifact behind a feature that is off is absent rather than emitted empty. \
         Got: {rendered}"
    );
}

#[test]
fn a_build_with_zod_publishes_the_client_beside_the_definition() {
    let rendered = registration(&mixed_service());
    assert!(rendered.contains("pub fn ts_client"), "got: {rendered}");
    assert!(rendered.contains("pub fn ts_http_client"), "got: {rendered}");
    assert!(rendered.contains("pub fn ts_service"), "got: {rendered}");
    assert!(rendered.contains("pub fn ts_definition"), "got: {rendered}");
    assert!(
        !rendered.contains("This build publishes no"),
        "a build that publishes the seam says nothing of its absence. Got: {rendered}"
    );
}

#[test]
fn the_dart_definition_asks_for_the_fault_kind_before_its_fields() {
    let rendered = registration_in(&mixed_service(), &build(true, true, false));
    let messages = [
        rendered
            .find("expire_credit_request_dart :: dart_definition")
            .unwrap(),
        rendered
            .find("sweep_request_dart :: dart_definition")
            .unwrap(),
    ];
    let kind = rendered
        .find("usage_service_schema :: usage_service_fault_kind_dart :: dart_definition")
        .unwrap();
    let fields = rendered
        .find("usage_service_schema :: usage_service_fault_fields_dart :: dart_definition")
        .unwrap();
    assert!(messages.iter().all(|&message| message < kind), "got: {rendered}");
    assert!(kind < fields, "got: {rendered}");
}

#[test]
fn a_build_without_dart_publishes_no_dart_definition() {
    let rendered = registration(&mixed_service());
    assert!(!rendered.contains("dart_definition"), "got: {rendered}");
}

#[test]
fn the_result_name_is_the_service_the_operation_and_result() {
    let service = mixed_service();
    assert_eq!(
        result::result_name("UsageService", &service.operations[1]).as_deref(),
        Some("UsageServiceExpireCreditResult")
    );
    assert_eq!(result::result_name("UsageService", &service.operations[3]), None);
}
