use tixschema::features::service_schema::http_client::emit;
use tixschema::features::service_schema::http_client::response::header_out_value_expr;
use tixschema::field_type::{FieldDef, FieldDefType, MapKeyWire, Recorded};
use tixschema::service_def::{
    BodyKind, ErrorStatus, HeaderBinding, HttpMethod, HttpShape, InputField, OperationDef,
    OperationInputs, OperationOutcome, PathSegment, ServiceDef,
};

fn typed(field_type: FieldDefType) -> FieldDef {
    FieldDef {
        field_type,
        array_depth: 0,
        nullable_levels: Vec::new(),
        optional: false,
        as_number: false,
        nullable: false,
        map_key_wire: MapKeyWire::Named,
        parameter_shape: false,
    }
}

fn optional(field_type: FieldDefType) -> FieldDef {
    let mut field = typed(field_type);
    field.optional = true;
    field
}

fn list(field_type: FieldDefType) -> FieldDef {
    let mut field = typed(field_type);
    field.array_depth = 1;
    field.nullable_levels = vec![false];
    field
}

fn named(name: &str) -> FieldDef {
    typed(FieldDefType::SiblingType(name.to_owned(), Vec::new()))
}

fn literal(text: &str) -> PathSegment {
    PathSegment::Literal(text.to_owned())
}

fn placeholder(name: &str) -> PathSegment {
    PathSegment::Placeholder(name.to_owned())
}

fn shape(method: HttpMethod, path: Vec<PathSegment>, body_kind: BodyKind) -> HttpShape {
    HttpShape {
        method,
        path,
        body_kind,
        header_in: Vec::new(),
        header_out: Vec::new(),
        error_header_out: Vec::new(),
        ok_status: 200,
        error_status: Vec::new(),
        multipart_parts: Vec::new(),
    }
}

fn operation(ident: &str, ts_name: &str, inputs: OperationInputs, outcome: OperationOutcome, http: HttpShape) -> OperationDef {
    OperationDef {
        ident: ident.to_owned(),
        ts_name: ts_name.to_owned(),
        wire_name: ident.to_owned(),
        generated_message: None,
        inputs,
        scalar_message: false,
        outcome,
        http,
    }
}

fn reply(success: FieldDef, error: &str) -> OperationOutcome {
    OperationOutcome::Reply {
        error: named(error),
        success,
    }
}

fn service(operations: Vec<OperationDef>) -> ServiceDef {
    ServiceDef {
        ident: "UsageService".to_owned(),
        operations,
        generated_messages: Vec::new(),
        recorded: Recorded {
            unit_structs: Vec::new(),
            untagged_enums: Vec::new(),
        },
        default_error_status: 422,
    }
}

fn balance() -> OperationDef {
    operation(
        "get_balance",
        "getBalance",
        OperationInputs::Named(named("BalanceRequest")),
        reply(named("Balance"), "BalanceError"),
        shape(HttpMethod::Post, vec![literal("/v1/balance")], BodyKind::Json),
    )
}

fn apply() -> OperationDef {
    let mut http = shape(HttpMethod::Post, vec![literal("/v1/apply")], BodyKind::Json);
    http.ok_status = 202;
    operation(
        "apply",
        "apply",
        OperationInputs::Named(named("ApplyRequest")),
        OperationOutcome::OneWay,
        http,
    )
}

fn lines(all: &[&str]) -> String {
    all.join("\n")
}

/// The text of the factory's method for `operation_ts_name`, from its `async` line to its close.
fn method_of(published: &[String], operation_ts_name: &str) -> String {
    let factory = published.last().unwrap();
    let start = factory
        .find(&format!("    async {operation_ts_name}("))
        .unwrap_or_else(|| panic!("no method {operation_ts_name} in {factory}"));
    let rest = &factory[start..];
    let end = rest.find("\n},").unwrap();
    rest[..end + 3].to_owned()
}

#[test]
fn the_http_client_publishes_seam_type_helpers_and_factory_in_order() {
    let published = emit(&service(vec![balance(), apply()]));
    assert_eq!(published.len(), 9, "got: {published:#?}");
    assert!(published[0].starts_with("/**\n * What binds a `UsageService` client to a real HTTP stack.\n"));
    assert!(published[0].contains("export type UsageServiceHttpTransport = {\n  send(request: {\n"));
    assert!(!published[0].contains("parts:"), "no operation is multipart");
    assert!(published[1].contains("export type UsageServiceHttpClient = {\n"));
    assert!(published[2].contains("function usageServiceHttpOutboundFault(\n"));
    assert!(published[3].contains("function usageServiceHttpTransportFailure(operation: string, detail: string): UsageServiceFault {\n"));
    assert!(published[4].contains("function usageServiceHttpUndeserializablePayload(\n"));
    assert!(published[5].contains("function usageServiceHttpFaultFromBody(operation: string, bodyText: string): UsageServiceFault {\n"));
    assert_eq!(
        published[6],
        lines(&[
            "/**",
            " * What a one-way `UsageService` HTTP method throws when it cannot answer its declared status.",
            " *",
            " * `Promise<void>` has no failure arm and no value position, so the fault rides on the thrown",
            " * error rather than on something returned. Narrow a caught error with `\"fault\" in caught`",
            " * to read it.",
            " */",
            "export type UsageServiceHttpRefusal = Error & { fault: UsageServiceFault };",
        ])
    );
    assert!(published[7].contains("function usageServiceHttpRefused(fault: UsageServiceFault): UsageServiceHttpRefusal {\n"));
    assert!(published[8].starts_with(
        "/**\n * Binds a `UsageService` client to an `http_rest` transport.\n */\nexport function createUsageServiceHttpClient(\n  transport: UsageServiceHttpTransport,\n): UsageServiceHttpClient {\n  return {\n    async getBalance("
    ));
    assert!(published[8].ends_with("},\n  };\n}"));
}

#[test]
fn a_service_with_no_one_way_operation_publishes_no_refusal() {
    let published = emit(&service(vec![balance()]));
    assert_eq!(published.len(), 7, "got: {published:#?}");
    assert!(!published.iter().any(|text| text.contains("HttpRefusal")));
}

#[test]
fn the_client_type_documents_each_route() {
    let published = emit(&service(vec![balance(), apply()]));
    assert!(published[1].ends_with(&lines(&[
        "export type UsageServiceHttpClient = {",
        "  /** Calls `get_balance` over `POST /v1/balance`. */",
        "  getBalance(req: BalanceRequest): Promise<UsageServiceGetBalanceResult>;",
        "  /** Calls `apply` over `POST /v1/apply`. */",
        "  apply(req: ApplyRequest): Promise<void>;",
        "};",
    ])));
}

#[test]
fn a_reply_method_validates_sends_and_reads_every_status() {
    let published = emit(&service(vec![balance()]));
    let expected = lines(&[
        "    async getBalance(req: BalanceRequest) {",
        "      const validated = BalanceRequest$Schema.safeParse(req);",
        "      if (!validated.success) {",
        "        return {",
        "          ok: false,",
        "          error: {",
        "            isServiceFault: true,",
        "            fault: usageServiceHttpOutboundFault(\"get_balance\", validated.error.issues),",
        "          },",
        "        };",
        "      }",
        "      const sending = validated.data;",
        "      let path = \"\";",
        "      path += \"/v1/balance\";",
        "      const query = \"\";",
        "      const headers: Array<[string, string]> = [];",
        "      const body = JSON.stringify(sending);",
        "      let response;",
        "      try {",
        "        response = await transport.send({",
        "          method: \"POST\",",
        "          path,",
        "          query,",
        "          headers,",
        "          body,",
        "        });",
        "      } catch (uncarried) {",
        "        return {",
        "          ok: false,",
        "          error: {",
        "            isServiceFault: true,",
        "            fault: usageServiceHttpTransportFailure(\"get_balance\", String(uncarried)),",
        "          },",
        "        };",
        "      }",
        "      const status = response.status;",
        "      if (status === 200) {",
        "        let value: Balance;",
        "        try {",
        "          value = JSON.parse(response.body) as Balance;",
        "        } catch (rejected) {",
        "          return {",
        "            ok: false,",
        "            error: {",
        "              isServiceFault: true,",
        "              fault: usageServiceHttpUndeserializablePayload(\"get_balance\", String(rejected)),",
        "            },",
        "          };",
        "        }",
        "        return { ok: true, value };",
        "      }",
        "      if (status === 422) {",
        "        let declared: BalanceError;",
        "        try {",
        "          declared = JSON.parse(response.body) as BalanceError;",
        "        } catch (rejected) {",
        "          return {",
        "            ok: false,",
        "            error: {",
        "              isServiceFault: true,",
        "              fault: usageServiceHttpUndeserializablePayload(\"get_balance\", String(rejected)),",
        "            },",
        "          };",
        "        }",
        "        return { ok: false, error: declared };",
        "      }",
        "      if (status === 400 || status === 404 || status === 500) {",
        "        return {",
        "          ok: false,",
        "          error: {",
        "            isServiceFault: true,",
        "            fault: usageServiceHttpFaultFromBody(\"get_balance\", response.body),",
        "          },",
        "        };",
        "      }",
        "      return {",
        "        ok: false,",
        "        error: {",
        "          isServiceFault: true,",
        "          fault: usageServiceHttpUndeserializablePayload(",
        "            \"get_balance\",",
        "            `an unexpected status (${status}) answered`,",
        "          ),",
        "        },",
        "      };",
        "},",
    ]);
    assert_eq!(method_of(&published, "getBalance"), expected);
}

#[test]
fn a_typescript_one_way_method_throws_its_refusal() {
    let published = emit(&service(vec![apply()]));
    let method = method_of(&published, "apply");
    assert!(method.contains(&lines(&[
        "      if (!validated.success) {",
        "        throw usageServiceHttpRefused(",
        "          usageServiceHttpOutboundFault(\"apply\", validated.error.issues),",
        "        );",
        "      }",
    ])));
    assert!(method.contains(&lines(&[
        "      } catch (uncarried) {",
        "        throw usageServiceHttpRefused(",
        "          usageServiceHttpTransportFailure(\"apply\", String(uncarried)),",
        "        );",
        "      }",
    ])));
    assert!(method.ends_with(&lines(&[
        "      const status = response.status;",
        "      if (status === 202) {",
        "        return;",
        "      }",
        "      if (status === 400 || status === 404 || status === 500) {",
        "        throw usageServiceHttpRefused(usageServiceHttpFaultFromBody(\"apply\", response.body));",
        "      }",
        "      throw usageServiceHttpRefused(",
        "        usageServiceHttpUndeserializablePayload(",
        "          \"apply\",",
        "          `an unexpected status (${status}) answered`,",
        "        ),",
        "      );",
        "},",
    ])));
}

fn list_entries() -> OperationDef {
    let mut http = shape(
        HttpMethod::Get,
        vec![literal("/accounts/"), placeholder("account_id"), literal("/entries")],
        BodyKind::Json,
    );
    http.header_in = vec![
        HeaderBinding {
            name: "x-tenant".to_owned(),
            parameter: "tenant_id".to_owned(),
            ty: typed(FieldDefType::String),
            schema: "z.string()".to_owned(),
        },
        HeaderBinding {
            name: "x-trace".to_owned(),
            parameter: "trace".to_owned(),
            ty: optional(FieldDefType::String),
            schema: "z.string()".to_owned(),
        },
    ];
    let mut listed = operation(
        "list_entries",
        "listEntries",
        OperationInputs::Generated(vec![
            InputField {
                ident: "account_id".to_owned(),
                wire_key: "accountId".to_owned(),
                ty: typed(FieldDefType::String),
            },
            InputField {
                ident: "since".to_owned(),
                wire_key: "since".to_owned(),
                ty: optional(FieldDefType::U64),
            },
            InputField {
                ident: "tags".to_owned(),
                wire_key: "tags".to_owned(),
                ty: list(FieldDefType::String),
            },
        ]),
        reply(list(FieldDefType::String), "EntryError"),
        http,
    );
    listed.generated_message = Some("ListEntriesRequest".to_owned());
    listed
}

#[test]
fn a_typescript_bodyless_method_binds_its_path_query_and_headers() {
    let published = emit(&service(vec![list_entries()]));
    assert!(published[1].contains(
        "  /** Calls `list_entries` over `GET /accounts/{account_id}/entries`. */\n  listEntries(req: ListEntriesRequest, tenantId: string, trace: string | undefined): Promise<UsageServiceListEntriesResult>;"
    ));
    let method = method_of(&published, "listEntries");
    assert!(method.starts_with(
        "    async listEntries(req: ListEntriesRequest, tenantId: string, trace: string | undefined) {\n      const validated = ListEntriesRequest$Schema.safeParse(req);\n"
    ));
    assert!(method.contains(&lines(&[
        "      const sending = validated.data;",
        "      let path = \"\";",
        "      path += \"/accounts/\";",
        "      path += encodeURIComponent(String(sending.accountId));",
        "      path += \"/entries\";",
        "      const queryParts: Array<string> = [];",
        "      if (sending.since !== undefined) {",
        "        queryParts.push(`since=${encodeURIComponent(String(sending.since))}`);",
        "      }",
        "      if (sending.tags !== undefined) {",
        "        const joined = sending.tags.map((element) => String(element)).join(\",\");",
        "        queryParts.push(`tags=${encodeURIComponent(joined)}`);",
        "      }",
        "      const query = queryParts.join(\"&\");",
        "      const headers: Array<[string, string]> = [];",
        "      headers.push([\"x-tenant\", String(tenantId)]);",
        "      if (trace !== undefined) {",
        "        headers.push([\"x-trace\", String(trace)]);",
        "      }",
        "      const body = \"\";",
        "      let response;",
        "",
    ])));
    assert!(method.contains(&lines(&[
        "      if (status === 200) {",
        "        let value: Array<string>;",
    ])));
}

#[test]
fn an_authors_message_answering_one_placeholder_is_read_whole() {
    let lone = operation(
        "get_entry",
        "getEntry",
        OperationInputs::Named(named("EntryId")),
        reply(named("Entry"), "EntryError"),
        shape(HttpMethod::Get, vec![literal("/entries/"), placeholder("id")], BodyKind::Json),
    );
    let pair = operation(
        "get_pair",
        "getPair",
        OperationInputs::Named(named("PairKey")),
        reply(named("Entry"), "EntryError"),
        shape(
            HttpMethod::Delete,
            vec![literal("/pairs/"), placeholder("first"), literal("/"), placeholder("second")],
            BodyKind::Json,
        ),
    );
    let published = emit(&service(vec![lone, pair]));
    assert!(method_of(&published, "getEntry").contains("      path += encodeURIComponent(String(sending));\n      const query = \"\";\n"));
    let pair_method = method_of(&published, "getPair");
    assert!(pair_method.contains("      path += encodeURIComponent(String(sending.first));\n"));
    assert!(pair_method.contains("      path += encodeURIComponent(String(sending.second));\n"));
    assert!(pair_method.contains("          method: \"DELETE\",\n"));
}

fn upload() -> OperationDef {
    let mut http = shape(HttpMethod::Post, vec![literal("/uploads")], BodyKind::Multipart);
    http.multipart_parts = vec![HeaderBinding {
        name: "file".to_owned(),
        parameter: "file_part".to_owned(),
        ty: typed(FieldDefType::Unknown),
        schema: "z.string()".to_owned(),
    }];
    let mut uploaded = operation(
        "upload",
        "upload",
        OperationInputs::Generated(vec![
            InputField {
                ident: "title".to_owned(),
                wire_key: "title".to_owned(),
                ty: typed(FieldDefType::String),
            },
            InputField {
                ident: "folder_name".to_owned(),
                wire_key: "folder".to_owned(),
                ty: optional(FieldDefType::String),
            },
        ]),
        reply(named("Upload"), "UploadError"),
        http,
    );
    uploaded.generated_message = Some("UploadRequest".to_owned());
    uploaded
}

#[test]
fn a_typescript_multipart_method_sends_its_fields_and_parts() {
    let published = emit(&service(vec![upload(), balance()]));
    assert!(published[0].contains("    body: string;\n    parts: ReadonlyArray<readonly [string, unknown]>;\n  }): Promise<{\n"));
    let method = method_of(&published, "upload");
    assert!(method.starts_with("    async upload(req: UploadRequest, filePart: unknown) {\n"));
    assert!(method.contains(&lines(&[
        "      const body = \"\";",
        "      const parts: Array<[string, unknown]> = [];",
        "      parts.push([\"title\", String(sending.title)]);",
        "      if (sending.folderName !== undefined) {",
        "        parts.push([\"folder\", String(sending.folderName)]);",
        "      }",
        "      parts.push([\"file\", filePart]);",
        "      let response;",
        "      try {",
        "        response = await transport.send({",
        "          method: \"POST\",",
        "          path,",
        "          query,",
        "          headers,",
        "          body,",
        "          parts,",
        "        });",
    ])));
    let other = method_of(&published, "getBalance");
    assert!(other.contains(
        "      const body = JSON.stringify(sending);\n      const parts: Array<[string, unknown]> = [];\n      let response;\n"
    ));
}

#[test]
fn declared_response_headers_are_read_back_beside_the_body() {
    let mut http = shape(HttpMethod::Post, vec![literal("/v1/balance")], BodyKind::Json);
    http.header_out = vec!["x-version".to_owned(), "x-flags".to_owned()];
    http.error_status = vec![
        ErrorStatus {
            variant: "Conflict".to_owned(),
            code: 409,
        },
        ErrorStatus {
            variant: "Gone".to_owned(),
            code: 410,
        },
    ];
    let versioned = operation(
        "get_balance",
        "getBalance",
        OperationInputs::Named(named("BalanceRequest")),
        reply(
            typed(FieldDefType::Tuple(vec![
                named("Balance"),
                typed(FieldDefType::U64),
                list(FieldDefType::Boolean),
            ])),
            "BalanceError",
        ),
        http,
    );
    let method = method_of(&emit(&service(vec![versioned])), "getBalance");
    assert!(method.contains(&lines(&[
        "        let value: Balance;",
        "        try {",
        "          value = JSON.parse(response.body) as Balance;",
        "        } catch (rejected) {",
        "          return {",
        "            ok: false,",
        "            error: {",
        "              isServiceFault: true,",
        "              fault: usageServiceHttpUndeserializablePayload(\"get_balance\", String(rejected)),",
        "            },",
        "          };",
        "        }",
        "        const rawHeaderOut0 = response.headers.find(",
        "          ([name]) => name.toLowerCase() === \"x-version\",",
        "        );",
        "        if (rawHeaderOut0 === undefined) {",
        "          return {",
        "            ok: false,",
        "            error: {",
        "              isServiceFault: true,",
        "              fault: usageServiceHttpUndeserializablePayload(",
        "                \"get_balance\",",
        "                \"a declared response header was missing\",",
        "              ),",
        "            },",
        "          };",
        "        }",
        "        const headerOut0 = Number(rawHeaderOut0[1]) as number;",
        "        const rawHeaderOut1 = response.headers.find(",
        "          ([name]) => name.toLowerCase() === \"x-flags\",",
        "        );",
    ])));
    assert!(method.contains(&lines(&[
        "        const headerOut1 = (rawHeaderOut1[1]).split(\",\").map((piece: string) => ((piece) === \"true\")) as Array<boolean>;",
        "        return { ok: true, value: [value, headerOut0, headerOut1] };",
        "      }",
        "      if (status === 409 || status === 410) {",
    ])));
}

#[test]
fn a_bytes_answer_reads_its_content_type() {
    let download = operation(
        "download",
        "download",
        OperationInputs::Empty,
        reply(
            typed(FieldDefType::Tuple(vec![list(FieldDefType::U8), typed(FieldDefType::String)])),
            "DownloadError",
        ),
        shape(HttpMethod::Get, vec![literal("/download")], BodyKind::Bytes),
    );
    let method = method_of(&emit(&service(vec![download])), "download");
    assert!(method.contains(&lines(&[
        "      if (status === 200) {",
        "        const contentType = response.headers.find(",
        "          ([name]) => name.toLowerCase() === \"content-type\",",
        "        )?.[1] ?? \"\";",
        "        return { ok: true, value: [response.body, contentType] };",
        "      }",
    ])));
    assert!(method.starts_with("    async download(req: unknown) {\n      const validated = unknown$Schema.safeParse(req);\n"));
}

#[test]
fn a_unit_reply_answers_undefined() {
    let touch = operation(
        "touch",
        "touch",
        OperationInputs::Named(named("TouchRequest")),
        reply(typed(FieldDefType::Tuple(Vec::new())), "TouchError"),
        shape(HttpMethod::Put, vec![literal("/touch")], BodyKind::Json),
    );
    let method = method_of(&emit(&service(vec![touch])), "touch");
    assert!(method.contains("      if (status === 200) {\n        return { ok: true, value: undefined };\n      }\n"));
    assert!(method.contains("          method: \"PUT\",\n"));
}

#[test]
fn a_response_header_is_read_back_as_its_declared_type() {
    assert_eq!(header_out_value_expr(&typed(FieldDefType::Boolean), 0, "raw"), "((raw) === \"true\")");
    assert_eq!(header_out_value_expr(&typed(FieldDefType::F64), 0, "raw"), "Number(raw)");
    assert_eq!(header_out_value_expr(&typed(FieldDefType::String), 0, "raw"), "raw");
    assert_eq!(
        header_out_value_expr(&list(FieldDefType::I32), 1, "raw"),
        "(raw).split(\",\").map((piece: string) => Number(piece))"
    );
}
