use tixschema::features::dart::{register_dart_name, DartNames};
use tixschema::features::service_schema::dart_http_client::calls::dart_success_type;
use tixschema::features::service_schema::dart_http_client::emit;
use tixschema::features::service_schema::dart_http_client::wire::{
    dart_escape, dart_header_out_decode, dart_wire_text,
};
use tixschema::field_type::{FieldDef, FieldDefType, MapKeyWire, Recorded};
use tixschema::service_def::{
    BodyKind, HeaderBinding, HttpMethod, HttpShape, InputField, OperationDef, OperationInputs,
    OperationOutcome, PathSegment, ServiceDef,
};

fn typed(field_type: FieldDefType) -> FieldDef {
    FieldDef {
        field_type,
        array_depth: 0,
        nullable_levels: Vec::new(),
        optional: false,
        as_number: false,
        nullable: false,
        map_key_wire: MapKeyWire::Named,
        parameter_shape: false,
    }
}

fn optional(field_type: FieldDefType) -> FieldDef {
    let mut field = typed(field_type);
    field.optional = true;
    field
}

fn named(name: &str) -> FieldDef {
    typed(FieldDefType::SiblingType(name.to_owned(), Vec::new()))
}

fn shape(method: HttpMethod, path: Vec<PathSegment>, body_kind: BodyKind) -> HttpShape {
    HttpShape {
        method,
        path,
        body_kind,
        header_in: Vec::new(),
        header_out: Vec::new(),
        error_header_out: Vec::new(),
        ok_status: 200,
        error_status: Vec::new(),
        multipart_parts: Vec::new(),
    }
}

fn operation(ident: &str, ts_name: &str, inputs: OperationInputs, outcome: OperationOutcome, http: HttpShape) -> OperationDef {
    OperationDef {
        ident: ident.to_owned(),
        ts_name: ts_name.to_owned(),
        wire_name: ident.to_owned(),
        generated_message: None,
        inputs,
        scalar_message: false,
        outcome,
        http,
    }
}

fn reply(success: FieldDef, error: FieldDef) -> OperationOutcome {
    OperationOutcome::Reply { error, success }
}

fn no_recorded() -> Recorded {
    Recorded {
        unit_structs: Vec::new(),
        untagged_enums: Vec::new(),
    }
}

fn service(operations: Vec<OperationDef>) -> ServiceDef {
    ServiceDef {
        ident: "UsageService".to_owned(),
        operations,
        generated_messages: Vec::new(),
        recorded: no_recorded(),
        default_error_status: 422,
    }
}

fn balance() -> OperationDef {
    operation(
        "get_balance",
        "getBalance",
        OperationInputs::Named(named("BalanceRequest")),
        reply(named("Balance"), named("BalanceError")),
        shape(HttpMethod::Post, Vec::new(), BodyKind::Json),
    )
}

fn apply() -> OperationDef {
    operation(
        "apply",
        "apply",
        OperationInputs::Named(named("ApplyRequest")),
        OperationOutcome::OneWay,
        shape(HttpMethod::Post, Vec::new(), BodyKind::Json),
    )
}

#[test]
fn the_dart_http_client_publishes_seam_refusal_client_and_helpers_in_order() {
    let published = emit(&service(vec![balance(), apply()]), &DartNames::new());
    assert_eq!(published.len(), 6, "got: {published:#?}");
    assert!(published[0].contains("abstract class UsageServiceHttpTransport {\n  Future<({int status, List<(String, String)> headers, List<int> body, Stream<List<int>> bodyStream})> send(\n    ({String method, String path, String query, List<(String, String)> headers, List<int> body, List<(String, dynamic)> parts}) request,\n  );\n}"));
    assert!(published[1].contains("class UsageServiceHttpRefusal implements Exception {"));
    assert!(published[2].starts_with("/// A `UsageService` caller over `http_rest`.\nclass UsageServiceHttpClient {\n  UsageServiceHttpClient(this._transport);\n  final UsageServiceHttpTransport _transport;\n\n"));
    assert!(published[3].contains("UsageServiceFaultFields _usageServiceHttpTransportFailure(String operation, String detail) =>"));
    assert!(published[4].contains("kind: UsageServiceFaultKind.undeserializablePayload,"));
    assert!(published[5].contains("UsageServiceFaultFields _usageServiceHttpFaultFromBody(String operation, List<int> body) {"));
}

#[test]
fn a_dart_reply_method_sends_its_message_and_reads_every_status() {
    let published = emit(&service(vec![balance()]), &DartNames::new());
    let expected = "  /// Calls `get_balance` over `POST `.\n  Future<UsageServiceGetBalanceResult> \
getBalance(BalanceRequest req) async {\n    var path = '';\n    const query = '';\n    const headers = \
<(String, String)>[];\n    final body = utf8.encode(jsonEncode(req.toJson()));\n    const parts = <(String, \
dynamic)>[];\n    late final ({int status, List<(String, String)> headers, List<int> body, \
Stream<List<int>> bodyStream}) response;\n    try {\n      response = await _transport.send((method: \
'POST', path: path, query: query, headers: headers, body: body, parts: parts));\n    } catch (uncarried) \
{\n      return UsageServiceGetBalanceResultFault(_usageServiceHttpTransportFailure('get_balance', \
'$uncarried'));\n    }\n    final status = response.status;\n    if (status == 200) {\n      late final \
Balance value;\n      try {\n        value = Balance.fromJson(jsonDecode(utf8.decode(response.body)));\n      \
} catch (rejected) {\n        return UsageServiceGetBalanceResultFault(\n          \
_usageServiceHttpUndeserializablePayload('get_balance', '$rejected'),\n        );\n      }\n      return \
UsageServiceGetBalanceResultOk(value);\n    }\n    if (status == 422) {\n      late final BalanceError \
declared;\n      try {\n        declared = BalanceError.fromJson(jsonDecode(utf8.decode(response.body)));\n      \
} catch (rejected) {\n        return UsageServiceGetBalanceResultFault(\n          \
_usageServiceHttpUndeserializablePayload('get_balance', '$rejected'),\n        );\n      }\n      return \
UsageServiceGetBalanceResultOperation(declared);\n    }\n    if (status == 400 || status == 404 || status == \
500) {\n      return UsageServiceGetBalanceResultFault(_usageServiceHttpFaultFromBody('get_balance', \
response.body));\n    }\n    return UsageServiceGetBalanceResultFault(\n      \
_usageServiceHttpUndeserializablePayload('get_balance', 'an unexpected status ($status) answered'),\n    \
);\n  }";
    assert!(published[1].contains(expected), "got: {}", published[1]);
}

#[test]
fn a_dart_one_way_method_throws_its_refusal() {
    let published = emit(&service(vec![apply()]), &DartNames::new());
    let client = &published[2];
    assert!(client.contains("  Future<void> apply(ApplyRequest req) async {\n"), "got: {client}");
    assert!(client.contains(
        "throw UsageServiceHttpRefusal(_usageServiceHttpTransportFailure('apply', '$uncarried'));"
    ));
    assert!(client.contains("    if (status == 200) {\n      return;\n    }\n"));
}

#[test]
fn a_dart_bodyless_method_binds_its_path_query_and_checked_headers() {
    let mut http = shape(
        HttpMethod::Get,
        vec![
            PathSegment::Literal("/files/".to_owned()),
            PathSegment::Placeholder("file_id".to_owned()),
        ],
        BodyKind::Json,
    );
    http.header_in = vec![HeaderBinding {
        name: "x-trace".to_owned(),
        parameter: "trace_id".to_owned(),
        ty: optional(FieldDefType::String),
        schema: "z.string()".to_owned(),
    }];
    let mut get_file = operation(
        "get_file",
        "getFile",
        OperationInputs::Generated(vec![
            InputField {
                ident: "file_id".to_owned(),
                wire_key: "fileId".to_owned(),
                ty: typed(FieldDefType::String),
            },
            InputField {
                ident: "version".to_owned(),
                wire_key: "version".to_owned(),
                ty: optional(FieldDefType::U32),
            },
        ]),
        reply(named("Content"), named("ContentError")),
        http,
    );
    get_file.generated_message = Some("GetFileRequest".to_owned());
    let mut names = DartNames::new();
    register_dart_name(&mut names, "GetFileRequest", "FileRequest");
    let published = emit(&service(vec![get_file]), &names);
    let client = &published[1];
    assert!(client.contains("  Future<UsageServiceGetFileResult> getFile(FileRequest req, String? trace_id) async {\n"), "got: {client}");
    assert!(client.contains(
        "    var path = '';\n    path += '/files/';\n    path += Uri.encodeComponent('${req.file_id}');\n"
    ));
    assert!(client.contains(
        "    final queryParts = <String>[];\n    {\n      final value = req.version;\n      if (value != null) {\n        queryParts.add('version=' + Uri.encodeComponent('${value}'));\n      }\n    }\n    final query = queryParts.join('&');\n"
    ));
    assert!(client.contains(
        "    final headers = <(String, String)>[];\n    if (trace_id != null) {\n      final rendered = '${trace_id}';\n      if (!_usageServiceHttpLegalHeaderValue(rendered)) {\n        return UsageServiceGetFileResultFault(_usageServiceHttpOutboundFault('get_file', 'x-trace', 'a header value contains a character illegal in an HTTP header'));\n      }\n      headers.add(('x-trace', rendered));\n    }\n"
    ), "got: {client}");
    assert!(client.contains("    const body = <int>[];\n"));
    assert!(published.iter().any(|text| text.contains("bool _usageServiceHttpLegalHeaderValue(String value) {")));
    assert!(published.iter().any(|text| text.contains("kind: UsageServiceFaultKind.failedValidation,")));
}

#[test]
fn a_dart_streamed_answer_and_declared_headers_read_back() {
    let mut http = shape(HttpMethod::Get, Vec::new(), BodyKind::Stream);
    http.header_out = vec!["x-checksum".to_owned()];
    http.error_header_out = vec!["x-retry".to_owned()];
    let stream = operation(
        "get_file",
        "getFile",
        OperationInputs::Empty,
        reply(
            typed(FieldDefType::Tuple(vec![named("StreamedAnswer"), optional(FieldDefType::I64)])),
            typed(FieldDefType::Tuple(vec![named("ContentError"), typed(FieldDefType::Boolean)])),
        ),
        http,
    );
    let published = emit(&service(vec![stream]), &DartNames::new());
    let client = &published[1];
    assert!(client.contains("  Future<UsageServiceGetFileResult> getFile(dynamic req) async {\n"), "got: {client}");
    assert!(client.contains(
        "    if (status == 206) {\n      final contentRange = _usageServiceHttpFindHeader(response.headers, 'content-range') ?? '';\n      final answer = (contentRange: contentRange, body: response.bodyStream);\n      final rawHeaderOut0 = _usageServiceHttpFindHeader(response.headers, 'x-checksum');\n      final headerOut0 = rawHeaderOut0 == null ? null : int.parse(rawHeaderOut0);\n      return UsageServiceGetFileResultOk((answer, headerOut0));\n    }\n"
    ), "got: {client}");
    assert!(client.contains(
        "      late final ContentError declaredHead;\n"
    ));
    assert!(client.contains(
        "      final rawErrorHeaderOut0 = _usageServiceHttpFindHeader(response.headers, 'x-retry');\n      if (rawErrorHeaderOut0 == null) {\n        return UsageServiceGetFileResultFault(\n          _usageServiceHttpUndeserializablePayload('get_file', 'a declared response header was missing'),\n        );\n      }\n      final errorHeaderOut0 = (rawErrorHeaderOut0 == 'true');\n      return UsageServiceGetFileResultOperation((declaredHead, errorHeaderOut0));\n"
    ), "got: {client}");
    assert!(published.iter().any(|text| text.contains("String? _usageServiceHttpFindHeader(List<(String, String)> headers, String name) {")));
}

#[test]
fn a_dart_multipart_method_sends_its_fields_and_parts() {
    let mut http = shape(HttpMethod::Post, Vec::new(), BodyKind::Multipart);
    http.multipart_parts = vec![HeaderBinding {
        name: "file".to_owned(),
        parameter: "file_bytes".to_owned(),
        ty: typed(FieldDefType::String),
        schema: "z.string()".to_owned(),
    }];
    let upload = operation(
        "upload",
        "upload",
        OperationInputs::Generated(vec![
            InputField {
                ident: "title".to_owned(),
                wire_key: "title".to_owned(),
                ty: named("Title"),
            },
            InputField {
                ident: "note".to_owned(),
                wire_key: "note".to_owned(),
                ty: optional(FieldDefType::String),
            },
        ]),
        reply(typed(FieldDefType::Tuple(Vec::new())), named("UploadError")),
        http,
    );
    let published = emit(&service(vec![upload]), &DartNames::new());
    let client = &published[1];
    assert!(client.contains(
        "    const body = <int>[];\n    final parts = <(String, dynamic)>[];\n    parts.add(('title', '${(req.title).toJson()}'));\n    if (req.note != null) {\n      parts.add(('note', '${req.note!}'));\n    }\n    parts.add(('file', file_bytes));\n"
    ), "got: {client}");
    assert!(client.contains("  Future<UsageServiceUploadResult> upload(dynamic req, String file_bytes) async {\n"));
    assert!(client.contains("      return UsageServiceUploadResultOk();\n"));
}

#[test]
fn a_dart_value_is_written_as_url_text_and_a_header_read_back() {
    let mut ids = named("UserId");
    ids.array_depth = 1;
    ids.nullable_levels = vec![true];
    assert_eq!(
        dart_wire_text(&ids, 1, "req.ids", false),
        "(req.ids).map((e) => (e == null ? '' : '${(e).toJson()}')).join(\",\")"
    );
    assert_eq!(
        dart_wire_text(&optional(FieldDefType::String), 0, "req.name", false),
        "(req.name == null ? '' : '${req.name!}')"
    );
    let mut counts = typed(FieldDefType::I64);
    counts.array_depth = 1;
    counts.nullable_levels = vec![false];
    assert_eq!(
        dart_header_out_decode(&counts, 1, "raw"),
        "(raw).split(\",\").map((piece) => int.parse(piece)).toList()"
    );
    assert_eq!(dart_header_out_decode(&typed(FieldDefType::F32), 0, "raw"), "double.parse(raw)");
    assert_eq!(dart_escape("it's $5\\"), "it\\'s \\$5\\\\");
}

#[test]
fn a_dart_success_is_answered_as_its_body_its_bytes_or_its_stream() {
    let names = DartNames::new();
    let recorded = no_recorded();
    assert_eq!(dart_success_type(&balance(), &recorded, &names), "Balance");
    assert_eq!(dart_success_type(&apply(), &recorded, &names), "void");
    let unit = operation(
        "ping",
        "ping",
        OperationInputs::Empty,
        reply(typed(FieldDefType::Tuple(Vec::new())), named("PingError")),
        shape(HttpMethod::Post, Vec::new(), BodyKind::Json),
    );
    assert_eq!(dart_success_type(&unit, &recorded, &names), "void");
    let mut http = shape(HttpMethod::Get, Vec::new(), BodyKind::Stream);
    http.header_out = vec!["x-checksum".to_owned()];
    let stream = operation(
        "get_file",
        "getFile",
        OperationInputs::Empty,
        reply(
            typed(FieldDefType::Tuple(vec![named("StreamedAnswer"), typed(FieldDefType::String)])),
            named("ContentError"),
        ),
        http,
    );
    assert_eq!(
        dart_success_type(&stream, &recorded, &names),
        "(({String? contentRange, Stream<List<int>> body}), String)"
    );
}
