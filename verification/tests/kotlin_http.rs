use tixschema::features::kotlin::{KotlinNames, TupleWrappers};
use tixschema::features::service_schema::kotlin_http_client::emit;
use tixschema::features::service_schema::kotlin_http_client::wire::{
    kotlin_escape, kotlin_header_out_decode, kotlin_wire_text,
};
use tixschema::field_type::{FieldDef, FieldDefType, MapKeyWire, Recorded};
use tixschema::service_def::{
    BodyKind, ErrorStatus, HeaderBinding, HttpMethod, HttpShape, InputField, OperationDef,
    OperationInputs, OperationOutcome, PathSegment, ServiceDef,
};

fn typed(field_type: FieldDefType) -> FieldDef {
    FieldDef {
        field_type,
        array_depth: 0,
        nullable_levels: Vec::new(),
        optional: false,
        as_number: false,
        nullable: false,
        map_key_wire: MapKeyWire::Named,
        parameter_shape: false,
    }
}

fn optional(field_type: FieldDefType) -> FieldDef {
    let mut field = typed(field_type);
    field.optional = true;
    field
}

fn named(name: &str) -> FieldDef {
    typed(FieldDefType::SiblingType(name.to_owned(), Vec::new()))
}

fn shape(method: HttpMethod, path: Vec<PathSegment>, body_kind: BodyKind) -> HttpShape {
    HttpShape {
        method,
        path,
        body_kind,
        header_in: Vec::new(),
        header_out: Vec::new(),
        error_header_out: Vec::new(),
        ok_status: 200,
        error_status: Vec::new(),
        multipart_parts: Vec::new(),
    }
}

fn operation(ident: &str, ts_name: &str, inputs: OperationInputs, outcome: OperationOutcome, http: HttpShape) -> OperationDef {
    OperationDef {
        ident: ident.to_owned(),
        ts_name: ts_name.to_owned(),
        wire_name: ident.to_owned(),
        generated_message: None,
        inputs,
        scalar_message: false,
        outcome,
        http,
    }
}

fn reply(success: FieldDef, error: &str) -> OperationOutcome {
    OperationOutcome::Reply {
        error: named(error),
        success,
    }
}

fn service(operations: Vec<OperationDef>) -> ServiceDef {
    ServiceDef {
        ident: "UsageService".to_owned(),
        operations,
        generated_messages: Vec::new(),
        recorded: Recorded {
            unit_structs: Vec::new(),
            untagged_enums: Vec::new(),
        },
        default_error_status: 422,
    }
}

fn balance() -> OperationDef {
    operation(
        "get_balance",
        "getBalance",
        OperationInputs::Named(named("BalanceRequest")),
        reply(named("Balance"), "BalanceError"),
        shape(HttpMethod::Post, Vec::new(), BodyKind::Json),
    )
}

fn apply() -> OperationDef {
    operation(
        "apply",
        "apply",
        OperationInputs::Named(named("ApplyRequest")),
        OperationOutcome::OneWay,
        shape(HttpMethod::Post, Vec::new(), BodyKind::Json),
    )
}

fn publish(service: &ServiceDef) -> Vec<String> {
    let names = KotlinNames { entries: Vec::new() };
    let mut tuples = TupleWrappers {
        counter: 0,
        aux: Vec::new(),
    };
    emit(service, &names, &mut tuples)
}

#[test]
fn the_http_client_publishes_seam_results_refusal_client_and_helpers_in_order() {
    let published = publish(&service(vec![balance(), apply()]));
    assert_eq!(published.len(), 10, "got: {published:#?}");
    assert!(published[0].contains("data class UsageServiceHttpRequest("));
    assert!(published[1].contains("data class UsageServiceHttpResponse("));
    assert!(published[2].contains("interface UsageServiceHttpTransport"));
    assert!(published[3].contains("sealed interface UsageServiceGetBalanceResult"));
    assert!(published[4].starts_with("/// What a one-way `UsageService` `http_rest` method throws"));
    assert!(published[5].starts_with(
        "/// A `UsageService` caller over `http_rest`.\nclass UsageServiceHttpClient(private val transport: UsageServiceHttpTransport) {\n"
    ));
    assert!(published[6].contains("private fun usageServiceHttpPercentEncode(value: String): String {"));
    assert!(published[7].contains("private fun usageServiceHttpTransportFailure(operation: String, detail: String): UsageServiceFaultFields ="));
    assert!(published[8].contains("kind = UsageServiceFaultKind.UndeserializablePayload,"));
    assert!(published[9].contains("private fun usageServiceHttpFaultFromBody(operation: String, response: UsageServiceHttpResponse): UsageServiceFaultFields ="));
    assert!(!published.iter().any(|text| text.contains("HttpFindHeader(headers")));
}

#[test]
fn a_reply_method_sends_its_message_and_reads_every_status() {
    let published = publish(&service(vec![balance()]));
    let expected = "  /// Calls `get_balance` over `POST `.\n  suspend fun getBalance(req: BalanceRequest): \
UsageServiceGetBalanceResult {\n    var path = \"\"\n    val query = \"\"\n    val headers = \
emptyList<Pair<String, String>>()\n    val body = Json.encodeToString(serializer<BalanceRequest>(), \
req).encodeToByteArray()\n    val response = try {\n      transport.send(UsageServiceHttpRequest(method = \
\"POST\", path = path, query = query, headers = headers, body = body))\n    } catch (thrown: Throwable) \
{\n      return UsageServiceGetBalanceResult.Fault(usageServiceHttpTransportFailure(\"get_balance\", \
thrown.toString()))\n    }\n    val status = response.status\n    if (status == 200) {\n      return try \
{\n        UsageServiceGetBalanceResult.Ok(Json.decodeFromString(serializer<Balance>(), \
response.body.decodeToString()))\n      } catch (rejected: Throwable) {\n        \
UsageServiceGetBalanceResult.Fault(usageServiceHttpUndeserializablePayload(\"get_balance\", \
rejected.toString()))\n      }\n    }\n    if (status == 422) {\n      return try {\n        \
UsageServiceGetBalanceResult.Declared(Json.decodeFromString(serializer<BalanceError>(), \
response.body.decodeToString()))\n      } catch (rejected: Throwable) {\n        \
UsageServiceGetBalanceResult.Fault(usageServiceHttpUndeserializablePayload(\"get_balance\", \
rejected.toString()))\n      }\n    }\n    if (status == 400 || status == 404 || status == 500) {\n      \
return UsageServiceGetBalanceResult.Fault(usageServiceHttpFaultFromBody(\"get_balance\", response))\n    \
}\n    return UsageServiceGetBalanceResult.Fault(\n      \
usageServiceHttpUndeserializablePayload(\"get_balance\", \"an unexpected status ($status) answered\"),\n    \
)\n  }";
    assert!(published[4].contains(expected), "got: {}", published[4]);
}

#[test]
fn a_one_way_method_throws_its_refusal() {
    let published = publish(&service(vec![apply()]));
    let client = &published[4];
    assert!(client.contains("  suspend fun apply(req: ApplyRequest) {\n"), "got: {client}");
    assert!(client.contains(
        "throw UsageServiceRefusal(usageServiceHttpTransportFailure(\"apply\", thrown.toString()))"
    ));
    assert!(client.contains(
        "    if (status == 200) {\n      return\n    }\n    if (status == 400 || status == 404 || status == 500) {\n      throw UsageServiceRefusal(usageServiceHttpFaultFromBody(\"apply\", response))\n    }\n"
    ));
}

#[test]
fn a_bodyless_method_binds_its_path_query_and_headers() {
    let mut http = shape(
        HttpMethod::Get,
        vec![
            PathSegment::Literal("/files/".to_owned()),
            PathSegment::Placeholder("file_id".to_owned()),
        ],
        BodyKind::Json,
    );
    http.header_in = vec![HeaderBinding {
        name: "x-trace".to_owned(),
        parameter: "trace_id".to_owned(),
        ty: optional(FieldDefType::String),
        schema: "z.string()".to_owned(),
    }];
    http.error_status = vec![
        ErrorStatus {
            variant: "Missing".to_owned(),
            code: 404,
        },
        ErrorStatus {
            variant: "Conflict".to_owned(),
            code: 409,
        },
    ];
    let mut get_file = operation(
        "get_file",
        "getFile",
        OperationInputs::Generated(vec![
            InputField {
                ident: "file_id".to_owned(),
                wire_key: "fileId".to_owned(),
                ty: typed(FieldDefType::String),
            },
            InputField {
                ident: "version".to_owned(),
                wire_key: "version".to_owned(),
                ty: optional(FieldDefType::U32),
            },
        ]),
        reply(named("Content"), "ContentError"),
        http,
    );
    get_file.generated_message = Some("GetFileRequest".to_owned());
    let published = publish(&service(vec![get_file]));
    let client = &published[4];
    assert!(client.contains("  /// Calls `get_file` over `GET /files/{file_id}`.\n"), "got: {client}");
    assert!(client.contains("  suspend fun getFile(req: GetFileRequest, traceId: String?): UsageServiceGetFileResult {\n"));
    assert!(client.contains(
        "    var path = \"\"\n    path += \"/files/\"\n    path += usageServiceHttpPercentEncode(\"${req.fileId}\")\n"
    ));
    assert!(client.contains(
        "    val queryParts = mutableListOf<String>()\n    req.version?.let { value ->\n      queryParts.add(\"version=\" + usageServiceHttpPercentEncode(\"${value}\"))\n    }\n    val query = queryParts.joinToString(\"&\")\n"
    ));
    assert!(client.contains(
        "    val headers = mutableListOf<Pair<String, String>>()\n    traceId?.let { headers.add(\"x-trace\" to \"${traceId}\") }\n"
    ));
    assert!(client.contains("    val body = ByteArray(0)\n"));
    assert!(client.contains("    if (status == 404 || status == 409) {\n"));
}

#[test]
fn a_lone_placeholder_reads_a_scalar_message_whole() {
    let mut get_user = operation(
        "get_user",
        "getUser",
        OperationInputs::Named(named("UserId")),
        reply(named("User"), "UserError"),
        shape(
            HttpMethod::Get,
            vec![
                PathSegment::Literal("/users/".to_owned()),
                PathSegment::Placeholder("user_id".to_owned()),
            ],
            BodyKind::Json,
        ),
    );
    get_user.scalar_message = true;
    let published = publish(&service(vec![get_user]));
    assert!(
        published[4].contains(
            "    path += usageServiceHttpPercentEncode(Json.encodeToJsonElement(serializer<UserId>(), req).jsonPrimitive.content)\n"
        ),
        "got: {}",
        published[4]
    );
    assert!(published[4].contains("    val query = \"\"\n"));
}

#[test]
fn a_streamed_answer_reads_its_range_and_its_declared_header() {
    let mut http = shape(HttpMethod::Get, Vec::new(), BodyKind::Stream);
    http.header_out = vec!["x-checksum".to_owned()];
    let stream = operation(
        "get_file",
        "getFile",
        OperationInputs::Empty,
        reply(
            typed(FieldDefType::Tuple(vec![named("StreamedAnswer"), typed(FieldDefType::I64)])),
            "ContentError",
        ),
        http,
    );
    let published = publish(&service(vec![stream]));
    let client = published.iter().find(|text| text.contains("class UsageServiceHttpClient")).unwrap();
    assert!(client.contains(
        "    if (status == 206) {\n      val contentRange = usageServiceHttpFindHeader(response.headers, \"content-range\")\n      val rawHeaderOut0 = usageServiceHttpFindHeader(response.headers, \"x-checksum\")\n      ?: return UsageServiceGetFileResult.Fault(\n        usageServiceHttpUndeserializablePayload(\"get_file\", \"a declared response header was missing\"),\n      )\n      val headerOut0 = (rawHeaderOut0).toLong()\n      return UsageServiceGetFileResult.Ok(UsageServiceGetFileResultStreamed(contentRange, response.bodyStream, headerOut0))\n    }\n"
    ), "got: {client}");
    assert!(client.contains("      val contentRange: String? = null\n"));
    assert!(client.contains("  suspend fun getFile(req: Unit): UsageServiceGetFileResult {\n"));
    assert!(published.iter().any(|text| text.contains(
        "private fun usageServiceHttpFindHeader(headers: List<Pair<String, String>>, name: String): String? {"
    )));
    assert!(published[1].contains("val bodyStream: Flow<ByteArray> = emptyFlow()"));
}

#[test]
fn a_multipart_method_sends_its_fields_and_parts() {
    let mut http = shape(HttpMethod::Post, Vec::new(), BodyKind::Multipart);
    http.multipart_parts = vec![HeaderBinding {
        name: "file".to_owned(),
        parameter: "file_bytes".to_owned(),
        ty: typed(FieldDefType::String),
        schema: "z.string()".to_owned(),
    }];
    let upload = operation(
        "upload",
        "upload",
        OperationInputs::Generated(vec![
            InputField {
                ident: "title".to_owned(),
                wire_key: "title".to_owned(),
                ty: typed(FieldDefType::String),
            },
            InputField {
                ident: "note".to_owned(),
                wire_key: "note".to_owned(),
                ty: optional(FieldDefType::String),
            },
        ]),
        reply(typed(FieldDefType::Tuple(Vec::new())), "UploadError"),
        http,
    );
    let published = publish(&service(vec![upload, balance()]));
    assert!(published[0].contains("val parts: List<Pair<String, Any?>> = emptyList()"));
    let client = &published[5];
    assert!(client.contains(
        "    val body = ByteArray(0)\n    val parts = mutableListOf<Pair<String, Any?>>()\n    parts.add(\"title\" to \"${req.title}\")\n    req.note?.let { parts.add(\"note\" to \"${it}\") }\n    parts.add(\"file\" to fileBytes)\n"
    ), "got: {client}");
    assert!(client.contains("body = body, parts = parts))"));
    assert!(client.contains("    val parts = emptyList<Pair<String, Any?>>()\n"));
    assert!(client.contains("      return UsageServiceUploadResult.Ok\n"));
}

#[test]
fn a_value_is_written_as_url_text_and_a_header_read_back() {
    let names = KotlinNames { entries: Vec::new() };
    let mut tuples = TupleWrappers {
        counter: 0,
        aux: Vec::new(),
    };
    let mut ids = named("UserId");
    ids.array_depth = 1;
    ids.nullable_levels = vec![true];
    assert_eq!(
        kotlin_wire_text(&ids, 1, "req.ids", false, &names, &mut tuples),
        "(req.ids).joinToString(\",\") { (if (it == null) \"\" else Json.encodeToJsonElement(serializer<UserId>(), it).jsonPrimitive.content) }"
    );
    let maybe = optional(FieldDefType::String);
    assert_eq!(
        kotlin_wire_text(&maybe, 0, "req.name", false, &names, &mut tuples),
        "(if (req.name == null) \"\" else \"${req.name!!}\")"
    );
    let mut counts = typed(FieldDefType::I64);
    counts.array_depth = 1;
    counts.nullable_levels = vec![false];
    assert_eq!(
        kotlin_header_out_decode(&counts, 1, "raw"),
        "(raw).split(\",\").map { piece -> (piece).toLong() }"
    );
    assert_eq!(kotlin_header_out_decode(&typed(FieldDefType::Boolean), 0, "raw"), "(raw == \"true\")");
    assert_eq!(kotlin_header_out_decode(&typed(FieldDefType::F64), 0, "raw"), "(raw).toDouble()");
    assert_eq!(kotlin_header_out_decode(&typed(FieldDefType::String), 0, "raw"), "raw");
    assert_eq!(kotlin_escape("a\"b$c\\d"), "a\\\"b\\$c\\\\d");
}
