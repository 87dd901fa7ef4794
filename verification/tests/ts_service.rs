use tixschema::features::service_schema::service::emit;
use tixschema::field_type::{FieldDef, FieldDefType, MapKeyWire, Recorded};
use tixschema::service_def::{
    BodyKind, HeaderBinding, HttpMethod, HttpShape, InputField, OperationDef,
    OperationInputs, OperationOutcome, PathSegment, ServiceDef,
};

fn typed(field_type: FieldDefType) -> FieldDef {
    FieldDef {
        field_type,
        array_depth: 0,
        nullable_levels: Vec::new(),
        optional: false,
        as_number: false,
        nullable: false,
        map_key_wire: MapKeyWire::Named,
        parameter_shape: false,
    }
}

fn optional(field_type: FieldDefType) -> FieldDef {
    let mut field = typed(field_type);
    field.optional = true;
    field
}

#[allow(dead_code)]
fn list(field_type: FieldDefType) -> FieldDef {
    let mut field = typed(field_type);
    field.array_depth = 1;
    field.nullable_levels = vec![false];
    field
}

fn named(name: &str) -> FieldDef {
    typed(FieldDefType::SiblingType(name.to_owned(), Vec::new()))
}

fn literal(text: &str) -> PathSegment {
    PathSegment::Literal(text.to_owned())
}

#[allow(dead_code)]
fn placeholder(name: &str) -> PathSegment {
    PathSegment::Placeholder(name.to_owned())
}

fn shape(method: HttpMethod, path: Vec<PathSegment>, body_kind: BodyKind) -> HttpShape {
    HttpShape {
        method,
        path,
        body_kind,
        header_in: Vec::new(),
        header_out: Vec::new(),
        error_header_out: Vec::new(),
        ok_status: 200,
        error_status: Vec::new(),
        multipart_parts: Vec::new(),
    }
}

fn operation(ident: &str, ts_name: &str, inputs: OperationInputs, outcome: OperationOutcome, http: HttpShape) -> OperationDef {
    OperationDef {
        ident: ident.to_owned(),
        ts_name: ts_name.to_owned(),
        wire_name: ident.to_owned(),
        generated_message: None,
        inputs,
        scalar_message: false,
        outcome,
        http,
    }
}

fn reply(success: FieldDef, error: &str) -> OperationOutcome {
    OperationOutcome::Reply {
        error: named(error),
        success,
    }
}

fn service(operations: Vec<OperationDef>) -> ServiceDef {
    ServiceDef {
        ident: "UsageService".to_owned(),
        operations,
        generated_messages: Vec::new(),
        recorded: Recorded {
            unit_structs: Vec::new(),
            untagged_enums: Vec::new(),
        },
        default_error_status: 422,
    }
}

fn balance() -> OperationDef {
    operation(
        "get_balance",
        "getBalance",
        OperationInputs::Named(named("BalanceRequest")),
        reply(named("Balance"), "BalanceError"),
        shape(HttpMethod::Post, vec![literal("/v1/balance")], BodyKind::Json),
    )
}

fn apply() -> OperationDef {
    let mut http = shape(HttpMethod::Post, vec![literal("/v1/apply")], BodyKind::Json);
    http.ok_status = 202;
    operation(
        "apply",
        "apply",
        OperationInputs::Named(named("ApplyRequest")),
        OperationOutcome::OneWay,
        http,
    )
}

fn lines(all: &[&str]) -> String {
    all.join("\n")
}

fn dispatcher_of(published: &[String]) -> String {
    published.last().unwrap().clone()
}

#[test]
fn the_service_side_publishes_outcomes_interface_helpers_and_dispatcher_in_order() {
    let published = emit(&service(vec![balance(), apply()]));
    assert_eq!(published.len(), 7, "got: {published:#?}");
    assert!(published[0].ends_with(&lines(&[
        "export type UsageServiceGetBalanceOutcome =",
        "  | { ok: true; value: Balance }",
        "  | { ok: false; error: BalanceError };",
    ])));
    assert!(published[1].ends_with(&lines(&[
        "export interface UsageServiceImpl<Ctx> {",
        "  /** Handles `get_balance` on `UsageService` and answers it. */",
        "  getBalance(ctx: Ctx, req: BalanceRequest): Promise<UsageServiceGetBalanceOutcome>;",
        "  /** Handles `apply` on `UsageService`, which expects no reply. */",
        "  apply(ctx: Ctx, req: ApplyRequest): Promise<void>;",
        "}",
    ])));
    assert!(published[2].ends_with("export type UsageServiceDispatched = {\n  answered: unknown;\n  headers: ReadonlyArray<readonly [string, string]>;\n};"));
    assert!(published[3].contains("function usageServiceFramed(fault: UsageServiceFault): UsageServiceDispatched {\n"));
    assert!(published[4].contains("kind: \"unknown-operation\","));
    assert!(published[5].contains("function usageServiceInboundFault(\n"));
    assert!(published[6].contains("export function createUsageServiceDispatcher<Ctx>(\n  impl: UsageServiceImpl<Ctx>,\n"));
    assert!(published[6].ends_with("      default:\n        return usageServiceFramed(usageServiceUnknownOperation(operation));\n    }\n  };\n}"));
}

#[test]
fn every_arm_parses_the_payload_before_it_calls() {
    let dispatcher = dispatcher_of(&emit(&service(vec![balance(), apply()])));
    assert!(dispatcher.contains(&lines(&[
        "      case \"get_balance\": {",
        "        const received = BalanceRequest$Schema.safeParse(payload);",
        "        if (!received.success) {",
        "          return usageServiceFramed(usageServiceInboundFault(\"get_balance\", received.error.issues));",
        "        }",
        "        return { answered: await impl.getBalance(ctx, received.data), headers: [] };",
        "      }",
        "      case \"apply\": {",
        "        const received = ApplyRequest$Schema.safeParse(payload);",
        "        if (!received.success) {",
        "          return usageServiceFramed(usageServiceInboundFault(\"apply\", received.error.issues));",
        "        }",
        "        await impl.apply(ctx, received.data);",
        "        return undefined;",
        "      }",
    ])));
}

#[test]
fn a_bound_header_is_read_and_checked_before_the_call() {
    let mut read = balance();
    read.http.header_in = vec![HeaderBinding {
        name: "x-tenant".to_owned(),
        parameter: "tenant_id".to_owned(),
        ty: typed(FieldDefType::String),
        schema: "z.string()".to_owned(),
    }];
    read.http.multipart_parts = vec![HeaderBinding {
        name: "file".to_owned(),
        parameter: "file_part".to_owned(),
        ty: typed(FieldDefType::Unknown),
        schema: "z.unknown()".to_owned(),
    }];
    let published = emit(&service(vec![read]));
    assert_eq!(published.len(), 8, "the header reader joins the helpers: {published:#?}");
    assert!(published[6].contains("function usageServiceRequestHeader<Parsed>(\n"));
    assert!(published[1].contains("  getBalance(ctx: Ctx, req: BalanceRequest, tenantId: string, filePart: unknown): Promise<UsageServiceGetBalanceOutcome>;"));
    assert!(dispatcher_of(&published).contains(&lines(&[
        "        }",
        "        const tenantIdHeader = usageServiceRequestHeader(\"get_balance\", headers, \"x-tenant\", z.string());",
        "        if (!tenantIdHeader.ok) {",
        "          return usageServiceFramed(tenantIdHeader.fault);",
        "        }",
        "        const filePart = parts.find(([name]) => name === \"file\")?.[1];",
        "        if (filePart === undefined) {",
        "          return usageServiceFramed(usageServiceInboundFault(\"get_balance\", [{ path: [\"file\"], message: \"a required multipart part was not carried\" }]));",
        "        }",
        "        return { answered: await impl.getBalance(ctx, received.data, tenantIdHeader.value, filePart), headers: [] };",
    ])));
}

#[test]
fn declared_response_headers_are_split_off_the_outcome() {
    let mut versioned = balance();
    versioned.http.header_out = vec!["x-version".to_owned(), "x-tag".to_owned()];
    versioned.outcome = reply(
        typed(FieldDefType::Tuple(vec![
            named("Balance"),
            typed(FieldDefType::U64),
            optional(FieldDefType::String),
        ])),
        "BalanceError",
    );
    let dispatcher = dispatcher_of(&emit(&service(vec![versioned])));
    assert!(dispatcher.contains(&lines(&[
        "        const outcome = await impl.getBalance(ctx, received.data);",
        "        if (outcome.ok) {",
        "          const [body0, headerOut0, headerOut1] = outcome.value;",
        "          const replied: Array<[string, string]> = [];",
        "          replied.push([\"x-version\", JSON.stringify(headerOut0)]);",
        "          if (headerOut1 != null) replied.push([\"x-tag\", JSON.stringify(headerOut1)]);",
        "          return { answered: { ok: true, value: body0 }, headers: replied };",
        "        }",
        "        return { answered: outcome, headers: [] };",
        "      }",
    ])));
}

#[test]
fn an_outcome_name_drops_every_trailing_result() {
    let fetched = operation(
        "get_result",
        "getResult",
        OperationInputs::Named(named("ResultRequest")),
        reply(typed(FieldDefType::Tuple(Vec::new())), "ResultError"),
        shape(HttpMethod::Post, vec![literal("/r")], BodyKind::Json),
    );
    let published = emit(&service(vec![fetched]));
    assert!(published[0].ends_with("export type UsageServiceGetOutcome =\n  | { ok: true }\n  | { ok: false; error: ResultError };"));
}
