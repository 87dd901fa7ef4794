use tixschema::features::kotlin::{KotlinNames, TupleWrappers};
use tixschema::features::service_schema::kotlin_http_client::{
    request_class, result_interface, result_interfaces, success_shape, transport_interface,
};
use tixschema::features::service_schema::kotlin_ws_client::emit;
use tixschema::field_type::{FieldDef, FieldDefType, MapKeyWire, Recorded};
use tixschema::service_def::{
    BodyKind, HeaderBinding, HttpMethod, HttpShape, OperationDef, OperationInputs,
    OperationOutcome, ServiceDef,
};

fn typed(field_type: FieldDefType) -> FieldDef {
    FieldDef {
        field_type,
        array_depth: 0,
        nullable_levels: Vec::new(),
        optional: false,
        as_number: false,
        nullable: false,
        map_key_wire: MapKeyWire::Named,
        parameter_shape: false,
    }
}

fn named(name: &str) -> FieldDef {
    typed(FieldDefType::SiblingType(name.to_owned(), Vec::new()))
}

fn shape(body_kind: BodyKind, header_in: Vec<HeaderBinding>, header_out: &[&str]) -> HttpShape {
    HttpShape {
        method: HttpMethod::Post,
        path: Vec::new(),
        body_kind,
        header_in,
        header_out: header_out.iter().map(|name| (*name).to_owned()).collect(),
        error_header_out: Vec::new(),
        ok_status: 200,
        error_status: Vec::new(),
        multipart_parts: Vec::new(),
    }
}

fn operation(ident: &str, ts_name: &str, outcome: OperationOutcome, http: HttpShape) -> OperationDef {
    OperationDef {
        ident: ident.to_owned(),
        ts_name: ts_name.to_owned(),
        wire_name: ident.to_owned(),
        generated_message: None,
        inputs: OperationInputs::Named(named("BalanceRequest")),
        scalar_message: false,
        outcome,
        http,
    }
}

fn no_recorded() -> Recorded {
    Recorded {
        unit_structs: Vec::new(),
        untagged_enums: Vec::new(),
    }
}

fn service(operations: Vec<OperationDef>) -> ServiceDef {
    ServiceDef {
        ident: "UsageService".to_owned(),
        operations,
        generated_messages: Vec::new(),
        recorded: no_recorded(),
        default_error_status: 422,
    }
}

fn balance() -> OperationDef {
    operation(
        "get_balance",
        "getBalance",
        OperationOutcome::Reply {
            error: named("BalanceError"),
            success: named("Balance"),
        },
        shape(BodyKind::Json, Vec::new(), &[]),
    )
}

fn apply() -> OperationDef {
    operation("apply", "apply", OperationOutcome::OneWay, shape(BodyKind::Json, Vec::new(), &[]))
}

fn no_names() -> KotlinNames {
    KotlinNames { entries: Vec::new() }
}

fn fresh() -> TupleWrappers {
    TupleWrappers {
        counter: 0,
        aux: Vec::new(),
    }
}

#[test]
fn the_ws_client_publishes_the_seam_the_client_the_handlers_and_the_faults() {
    let published = emit(&service(vec![balance()]), &no_names(), &mut fresh());
    assert_eq!(published.len(), 13, "got: {published:#?}");
    assert!(published[0].contains("interface UsageServiceWsSocket {"));
    assert!(published[1].contains("data class UsageServiceWsOptions("));
    assert!(published[2].contains("data class UsageServiceWsFrames("));
    assert!(published[3].starts_with("/// A `UsageService` `ws_rpc` transport"));
    assert!(published[3].ends_with("scope.cancel()\n  }\n}"));
    assert!(
        published[4].contains(
            "class UsageServiceWsClient(private val transport: UsageServiceWsTransport) {"
        ),
        "got: {}",
        published[4]
    );
    assert!(
        published[4].contains(
            "  suspend fun getBalance(req: BalanceRequest): UsageServiceGetBalanceResult {"
        ),
        "got: {}",
        published[4]
    );
    assert!(
        published[5].contains(
            "interface UsageServiceHandlers {\n  suspend fun getBalance(req: BalanceRequest): \
             UsageServiceGetBalanceResult\n}"
        ),
        "got: {}",
        published[5]
    );
    assert!(published[8].contains("    \"get_balance\" -> {"), "got: {}", published[8]);
    assert!(
        published[9].contains(
            "private fun usageServiceWsTransportFailure(operation: String, detail: String): \
             UsageServiceFaultFields = UsageServiceFaultFields("
        ),
        "got: {}",
        published[9]
    );
    assert!(
        published[10].contains(
            "private fun usageServiceWsFailedValidation(operation: String, detail: String)"
        ),
        "no header is bound, so the validation helper takes no field. Got: {}",
        published[10]
    );
}

#[test]
fn a_one_way_operation_earns_the_ws_refusal_and_an_acknowledgement() {
    let published = emit(&service(vec![balance(), apply()]), &no_names(), &mut fresh());
    assert_eq!(published.len(), 14, "got: {published:#?}");
    assert!(published[3].contains(
        "class UsageServiceWsRefusal(val fault: UsageServiceFaultFields) : Exception(fault.detail)"
    ));
    let dispatcher = &published[9];
    assert!(dispatcher.contains("    \"apply\" -> {"), "got: {dispatcher}");
    assert!(
        dispatcher.contains("      if (id != null) send(buildJsonObject { put(\"kind\", \"reply\"); put(\"id\", id); put(\"service\", \"UsageService\"); put(\"ok\", true); put(\"value\", JsonNull) }.toString())\n"),
        "got: {dispatcher}"
    );
}

#[test]
fn a_bound_header_reaches_the_transport_and_the_validation_helper_names_it() {
    let mut operation = balance();
    operation.http.header_in = vec![HeaderBinding {
        name: "x-tenant".to_owned(),
        parameter: "tenant_id".to_owned(),
        ty: typed(FieldDefType::String),
        schema: "z.string()".to_owned(),
    }];
    let published = emit(&service(vec![operation]), &no_names(), &mut fresh());
    assert!(published[3].contains("suspend fun request(operation: String, payload: JsonElement?, headers: JsonObject): JsonObject?"));
    assert!(
        published[4].contains("  suspend fun getBalance(req: BalanceRequest, tenantId: String)"),
        "got: {}",
        published[4]
    );
    assert!(
        published[4].contains(
            "      put(\"x-tenant\", Json.encodeToJsonElement(serializer<String>(), tenantId))\n"
        ),
        "got: {}",
        published[4]
    );
    assert!(
        published[8].contains("      val tenantIdRaw = incomingHeaders[\"x-tenant\"]\n"),
        "got: {}",
        published[8]
    );
    assert!(
        published[10].contains("  field: String? = null,\n"),
        "got: {}",
        published[10]
    );
}

#[test]
fn the_http_seam_names_no_networking_library() {
    assert!(request_class("UsageService", false).ends_with("  val body: ByteArray,\n)"));
    assert!(request_class("UsageService", true)
        .contains("  val parts: List<Pair<String, Any?>> = emptyList(),\n)"));
    assert_eq!(
        transport_interface("UsageService"),
        "/// What binds a `UsageService` Kotlin client to a real HTTP stack. A hand-written\n\
         /// implementation over any HTTP client satisfies it; nothing here names one.\n\
         interface UsageServiceHttpTransport {\n  suspend fun send(request: UsageServiceHttpRequest): \
         UsageServiceHttpResponse\n}"
    );
}

#[test]
fn a_reply_operation_answers_a_sealed_result_and_a_one_way_one_none() {
    let expected = "/// What `get_balance` on `UsageService` answers: the success, the error the \
                    operation declared, or a\n/// fault it never declared.\nsealed interface \
                    UsageServiceGetBalanceResult {\n  data class Ok(val value: Balance) : \
                    UsageServiceGetBalanceResult\n  data class Declared(val error: BalanceError) : \
                    UsageServiceGetBalanceResult\n  data class Fault(val fault: \
                    UsageServiceFaultFields) : UsageServiceGetBalanceResult\n}";
    assert_eq!(
        result_interface("UsageService", &balance(), &no_recorded(), &no_names(), &mut fresh()).as_deref(),
        Some(expected)
    );
    assert_eq!(
        result_interface("UsageService", &apply(), &no_recorded(), &no_names(), &mut fresh()),
        None
    );
    let all = result_interfaces(&service(vec![balance(), apply()]), "UsageService", &no_names(), &mut fresh());
    assert_eq!(all, vec![expected.to_owned()]);
}

#[test]
fn a_unit_success_is_a_data_object() {
    let mut ping = balance();
    ping.outcome = OperationOutcome::Reply {
        error: named("BalanceError"),
        success: typed(FieldDefType::Tuple(Vec::new())),
    };
    let rendered = result_interface("UsageService", &ping, &no_recorded(), &no_names(), &mut fresh()).unwrap();
    assert!(
        rendered.contains("  data object Ok : UsageServiceGetBalanceResult\n"),
        "got: {rendered}"
    );
}

#[test]
fn a_streamed_success_with_a_header_answers_its_own_record() {
    let success = typed(FieldDefType::Tuple(vec![named("StreamedAnswer"), typed(FieldDefType::String)]));
    let answer = success_shape(
        "ContentClientServiceGetTaggedFileResult",
        &shape(BodyKind::Stream, Vec::new(), &["x-checksum"]),
        &success,
        &no_names(),
        &mut fresh(),
    );
    assert_eq!(answer.kotlin_type, "ContentClientServiceGetTaggedFileResultStreamed");
    assert_eq!(
        answer.aux_declaration.as_deref(),
        Some(
            "data class ContentClientServiceGetTaggedFileResultStreamed(val contentRange: \
             String?, val body: Flow<ByteArray>, val headerOut0: String)"
        )
    );
}

#[test]
fn a_bytes_success_and_a_json_success_with_a_header() {
    let success = typed(FieldDefType::Tuple(vec![
        typed(FieldDefType::Tuple(vec![typed(FieldDefType::U8), typed(FieldDefType::String)])),
        typed(FieldDefType::String),
        typed(FieldDefType::I32),
    ]));
    let bytes = success_shape(
        "DocGetResult",
        &shape(BodyKind::Bytes, Vec::new(), &["etag"]),
        &success,
        &no_names(),
        &mut fresh(),
    );
    assert_eq!(
        bytes.aux_declaration.as_deref(),
        Some("data class DocGetResultBytes(val body: ByteArray, val contentType: String, val headerOut0: Int)")
    );
    let valued = typed(FieldDefType::Tuple(vec![named("Document"), typed(FieldDefType::String)]));
    let json = success_shape(
        "DocGetResult",
        &shape(BodyKind::Json, Vec::new(), &["etag"]),
        &valued,
        &no_names(),
        &mut fresh(),
    );
    assert_eq!(json.kotlin_type, "DocGetResultValue");
    assert_eq!(
        json.aux_declaration.as_deref(),
        Some("data class DocGetResultValue(val value: Document, val headerOut0: String)")
    );
    let plain = success_shape(
        "DocGetResult",
        &shape(BodyKind::Json, Vec::new(), &[]),
        &named("Document"),
        &no_names(),
        &mut fresh(),
    );
    assert_eq!(plain.kotlin_type, "Document");
    assert_eq!(plain.aux_declaration, None);
}
