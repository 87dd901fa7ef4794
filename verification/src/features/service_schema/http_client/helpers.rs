//! The one seam type a TypeScript `http_rest` client sends through, and the fault-building
//! readers every method reaches for: the outbound check's fault, the transport's failure, a
//! response that will not read, a fixed fault status's own body, and the refusal a one-way
//! method throws.
use crate::features::service_schema::fault::{minted, minted_text, FAILED_VALIDATION_MEMBERS};
use crate::rename_rule::{camel_case_of_variant, lower_first};
use crate::service_def::{any_one_way, has_one_way, ServiceDef};
use crate::text::views;
use vstd::prelude::*;

verus! {

/// The seam: a request record in, a response record out, nothing service-specific in either. The
/// request carries `parts` only where the service declares a multipart operation.
pub open spec fn transport_type_text(named: Seq<char>, has_multipart: bool) -> Seq<char> {
    let parts_field = if has_multipart {
        "\n    parts: ReadonlyArray<readonly [string, unknown]>;"@
    } else {
        ""@
    };
    "/**\n * What binds a `"@ + named
        + "` client to a real HTTP stack.\n *\n * One method, sending a whole request and answering with a whole response. The shapes carry\n * nothing service-specific, so one hand-written implementation (built once, over any HTTP stack)\n * satisfies every service's own alias of this type.\n */\nexport type "@
        + named
        + "HttpTransport = {\n  send(request: {\n    method: string;\n    path: string;\n    query: string;\n    headers: ReadonlyArray<readonly [string, string]>;\n    body: string;"@
        + parts_field
        + "\n  }): Promise<{\n    status: number;\n    headers: ReadonlyArray<readonly [string, string]>;\n    body: string;\n  }>;\n};"@
}

pub fn transport_type(named: &str, has_multipart: bool) -> (text: String)
    ensures
        text@ == transport_type_text(named@, has_multipart),
{
    let parts_field = if has_multipart {
        "\n    parts: ReadonlyArray<readonly [string, unknown]>;"
    } else {
        ""
    };
    let mut text = String::from_str("/**\n * What binds a `");
    text.append(named);
    text.append(
        "` client to a real HTTP stack.\n *\n * One method, sending a whole request and answering with a whole response. The shapes carry\n * nothing service-specific, so one hand-written implementation (built once, over any HTTP stack)\n * satisfies every service's own alias of this type.\n */\nexport type ",
    );
    text.append(named);
    text.append(
        "HttpTransport = {\n  send(request: {\n    method: string;\n    path: string;\n    query: string;\n    headers: ReadonlyArray<readonly [string, string]>;\n    body: string;",
    );
    text.append(parts_field);
    text.append(
        "\n  }): Promise<{\n    status: number;\n    headers: ReadonlyArray<readonly [string, string]>;\n    body: string;\n  }>;\n};",
    );
    text
}

/// The fault a message failing its own schema answers: the operation never ran and the transport
/// was never reached.
pub open spec fn outbound_fault_text(named: Seq<char>, prefix: Seq<char>) -> Seq<char> {
    "/**\n * The fault a `"@ + named
        + "` HTTP client answers with when the message it was about to send failed\n * its own schema. The operation never ran, so this is not one of the errors it declared, and\n * the transport was never reached.\n */\nfunction "@
        + prefix
        + "HttpOutboundFault(\n  operation: string,\n  issues: ReadonlyArray<{ path: ReadonlyArray<PropertyKey>; message: string }>,\n): "@
        + named + "Fault {\n  const [first] = issues;\n  const failedAt = first === undefined ? \"\" : first.path.join(\".\");\n"@
        + minted_text(named, FAILED_VALIDATION_MEMBERS@) + "\n}"@
}

fn outbound_fault_fn(named: &str, prefix: &str) -> (text: String)
    ensures
        text@ == outbound_fault_text(named@, prefix@),
{
    let mut text = String::from_str("/**\n * The fault a `");
    text.append(named);
    text.append(
        "` HTTP client answers with when the message it was about to send failed\n * its own schema. The operation never ran, so this is not one of the errors it declared, and\n * the transport was never reached.\n */\nfunction ",
    );
    text.append(prefix);
    text.append(
        "HttpOutboundFault(\n  operation: string,\n  issues: ReadonlyArray<{ path: ReadonlyArray<PropertyKey>; message: string }>,\n): ",
    );
    text.append(named);
    text.append("Fault {\n  const [first] = issues;\n  const failedAt = first === undefined ? \"\" : first.path.join(\".\");\n");
    text.append(minted(named, FAILED_VALIDATION_MEMBERS).as_str());
    text.append("\n}");
    text
}

/// The members of a fault of a fixed kind, its detail handed in.
pub open spec fn kind_members_text(kind: Seq<char>) -> Seq<char> {
    "    detail,\n    field: undefined,\n    kind: \""@ + kind + "\",\n    operation,"@
}

/// The fault a transport that could not carry a call answers.
pub open spec fn transport_failure_text(named: Seq<char>, prefix: Seq<char>) -> Seq<char> {
    "/**\n * The fault a `"@ + named
        + "` HTTP client answers with when the transport could not carry a call:\n * the request never went out, or the response never came back.\n */\nfunction "@
        + prefix + "HttpTransportFailure(operation: string, detail: string): "@ + named + "Fault {\n"@ + minted_text(
        named,
        kind_members_text("transport-failure"@),
    ) + "\n}"@
}

fn transport_failure_fn(named: &str, prefix: &str) -> (text: String)
    ensures
        text@ == transport_failure_text(named@, prefix@),
{
    let mut text = String::from_str("/**\n * The fault a `");
    text.append(named);
    text.append(
        "` HTTP client answers with when the transport could not carry a call:\n * the request never went out, or the response never came back.\n */\nfunction ",
    );
    text.append(prefix);
    text.append("HttpTransportFailure(operation: string, detail: string): ");
    text.append(named);
    text.append("Fault {\n");
    let members = "    detail,\n    field: undefined,\n    kind: \"transport-failure\",\n    operation,";
    proof {
        reveal_strlit("    detail,\n    field: undefined,\n    kind: \"transport-failure\",\n    operation,");
        reveal_strlit("    detail,\n    field: undefined,\n    kind: \"");
        reveal_strlit("transport-failure");
        reveal_strlit("\",\n    operation,");
        assert(members@ =~= kind_members_text("transport-failure"@));
    }
    text.append(minted(named, members).as_str());
    text.append("\n}");
    text
}

/// The fault a response that will not become the answer its status promised answers.
pub open spec fn undeserializable_payload_text(named: Seq<char>, prefix: Seq<char>) -> Seq<char> {
    "/**\n * The fault a `"@ + named
        + "` HTTP client answers with when a response will not become the answer\n * its status promised: a body that will not parse, a declared header that never arrived, or\n * a status this client did not expect.\n */\nfunction "@
        + prefix + "HttpUndeserializablePayload(\n  operation: string,\n  detail: string,\n): "@ + named + "Fault {\n"@
        + minted_text(named, kind_members_text("undeserializable-payload"@)) + "\n}"@
}

fn undeserializable_payload_fn(named: &str, prefix: &str) -> (text: String)
    ensures
        text@ == undeserializable_payload_text(named@, prefix@),
{
    let mut text = String::from_str("/**\n * The fault a `");
    text.append(named);
    text.append(
        "` HTTP client answers with when a response will not become the answer\n * its status promised: a body that will not parse, a declared header that never arrived, or\n * a status this client did not expect.\n */\nfunction ",
    );
    text.append(prefix);
    text.append("HttpUndeserializablePayload(\n  operation: string,\n  detail: string,\n): ");
    text.append(named);
    text.append("Fault {\n");
    let members = "    detail,\n    field: undefined,\n    kind: \"undeserializable-payload\",\n    operation,";
    proof {
        reveal_strlit("    detail,\n    field: undefined,\n    kind: \"undeserializable-payload\",\n    operation,");
        reveal_strlit("    detail,\n    field: undefined,\n    kind: \"");
        reveal_strlit("undeserializable-payload");
        reveal_strlit("\",\n    operation,");
        assert(members@ =~= kind_members_text("undeserializable-payload"@));
    }
    text.append(minted(named, members).as_str());
    text.append("\n}");
    text
}

/// The members of a fault read back from a fixed fault status's body.
pub open spec fn parsed_members_text(named: Seq<char>) -> Seq<char> {
    "      detail: parsed.detail,\n      field: parsed.field as string | undefined,\n      kind: parsed.kind as "@ + named
        + "FaultKind,\n      operation: parsed.operation,"@
}

/// Reads a fixed fault status's body back into the service's fault; a body that does not read as
/// the fault's shape answers a fault of its own.
pub open spec fn fault_from_body_text(named: Seq<char>, prefix: Seq<char>) -> Seq<char> {
    "/**\n * Reads a fixed fault status's own body back into a `"@ + named
        + "Fault`, from whatever it holds.\n * A body that does not read as the fixed fault shape is itself a defect answered as one.\n */\nfunction "@
        + prefix + "HttpFaultFromBody(operation: string, bodyText: string): "@ + named
        + "Fault {\n  try {\n    const parsed = JSON.parse(bodyText) as {\n      detail?: unknown;\n      field?: unknown;\n      kind?: unknown;\n      operation?: unknown;\n    };\n    const knownKinds: ReadonlyArray<unknown> = [\n      \"failed-validation\",\n      \"handler-panic\",\n      \"transport-failure\",\n      \"undeserializable-payload\",\n      \"unknown-operation\",\n    ];\n    if (\n      typeof parsed.detail === \"string\" &&\n      (parsed.field === undefined || typeof parsed.field === \"string\") &&\n      typeof parsed.kind === \"string\" &&\n      knownKinds.includes(parsed.kind) &&\n      typeof parsed.operation === \"string\"\n    ) {\n"@
        + minted_text(named, parsed_members_text(named))
        + "\n    }\n  } catch {\n    // Falls through to the payload below.\n  }\n  return "@ + prefix
        + "HttpUndeserializablePayload(\n    operation,\n    \"a fault body did not match the expected shape\",\n  );\n}"@
}

fn fault_from_body_fn(named: &str, prefix: &str) -> (text: String)
    ensures
        text@ == fault_from_body_text(named@, prefix@),
{
    let mut members = String::from_str(
        "      detail: parsed.detail,\n      field: parsed.field as string | undefined,\n      kind: parsed.kind as ",
    );
    members.append(named);
    members.append("FaultKind,\n      operation: parsed.operation,");
    let mut text = String::from_str("/**\n * Reads a fixed fault status's own body back into a `");
    text.append(named);
    text.append(
        "Fault`, from whatever it holds.\n * A body that does not read as the fixed fault shape is itself a defect answered as one.\n */\nfunction ",
    );
    text.append(prefix);
    text.append("HttpFaultFromBody(operation: string, bodyText: string): ");
    text.append(named);
    text.append(
        "Fault {\n  try {\n    const parsed = JSON.parse(bodyText) as {\n      detail?: unknown;\n      field?: unknown;\n      kind?: unknown;\n      operation?: unknown;\n    };\n    const knownKinds: ReadonlyArray<unknown> = [\n      \"failed-validation\",\n      \"handler-panic\",\n      \"transport-failure\",\n      \"undeserializable-payload\",\n      \"unknown-operation\",\n    ];\n    if (\n      typeof parsed.detail === \"string\" &&\n      (parsed.field === undefined || typeof parsed.field === \"string\") &&\n      typeof parsed.kind === \"string\" &&\n      knownKinds.includes(parsed.kind) &&\n      typeof parsed.operation === \"string\"\n    ) {\n",
    );
    text.append(minted(named, members.as_str()).as_str());
    text.append("\n    }\n  } catch {\n    // Falls through to the payload below.\n  }\n  return ");
    text.append(prefix);
    text.append("HttpUndeserializablePayload(\n    operation,\n    \"a fault body did not match the expected shape\",\n  );\n}");
    text
}

/// What a one-way method throws: an error carrying the fault.
pub open spec fn refusal_type_text(named: Seq<char>) -> Seq<char> {
    "/**\n * What a one-way `"@ + named
        + "` HTTP method throws when it cannot answer its declared status.\n *\n * `Promise<void>` has no failure arm and no value position, so the fault rides on the thrown\n * error rather than on something returned. Narrow a caught error with `\"fault\" in caught`\n * to read it.\n */\nexport type "@
        + named + "HttpRefusal = Error & { fault: "@ + named + "Fault };"@
}

/// How a one-way method reports a call it could not carry out.
pub open spec fn refused_fn_text(named: Seq<char>, prefix: Seq<char>) -> Seq<char> {
    "/**\n * How a one-way `"@ + named
        + "` HTTP method reports a call it could not carry out. It answers `Promise<void>`, so there is no failure arm to put a fault in, and it is thrown instead.\n */\nfunction "@
        + prefix + "HttpRefused(fault: "@ + named + "Fault): "@ + named
        + "HttpRefusal {\n  return Object.assign(\n    new Error(`${fault.kind} in operation \\`${fault.operation}\\`: ${fault.detail}`),\n    { fault },\n  );\n}"@
}

/// The four fault readers every method reaches for, then the refusal and its thrower where an
/// operation is one-way.
pub open spec fn fault_helpers_text(service: ServiceDef) -> Seq<Seq<char>> {
    let named = service.ident@;
    let prefix = lower_first(named);
    let readers = seq![
        outbound_fault_text(named, prefix),
        transport_failure_text(named, prefix),
        undeserializable_payload_text(named, prefix),
        fault_from_body_text(named, prefix),
    ];
    if any_one_way(service.operations@) {
        readers + seq![refusal_type_text(named), refused_fn_text(named, prefix)]
    } else {
        readers
    }
}

pub fn fault_helpers(service: &ServiceDef) -> (helpers: Vec<String>)
    ensures
        views(helpers@) == fault_helpers_text(*service),
{
    let named = service.ident.as_str();
    let prefix = camel_case_of_variant(named);
    let prefix = prefix.as_str();
    let mut helpers: Vec<String> = Vec::new();
    helpers.push(outbound_fault_fn(named, prefix));
    helpers.push(transport_failure_fn(named, prefix));
    helpers.push(undeserializable_payload_fn(named, prefix));
    helpers.push(fault_from_body_fn(named, prefix));
    if has_one_way(service) {
        let mut refusal = String::from_str("/**\n * What a one-way `");
        refusal.append(named);
        refusal.append(
            "` HTTP method throws when it cannot answer its declared status.\n *\n * `Promise<void>` has no failure arm and no value position, so the fault rides on the thrown\n * error rather than on something returned. Narrow a caught error with `\"fault\" in caught`\n * to read it.\n */\nexport type ",
        );
        refusal.append(named);
        refusal.append("HttpRefusal = Error & { fault: ");
        refusal.append(named);
        refusal.append("Fault };");
        let mut refused = String::from_str("/**\n * How a one-way `");
        refused.append(named);
        refused.append(
            "` HTTP method reports a call it could not carry out. It answers `Promise<void>`, so there is no failure arm to put a fault in, and it is thrown instead.\n */\nfunction ",
        );
        refused.append(prefix);
        refused.append("HttpRefused(fault: ");
        refused.append(named);
        refused.append("Fault): ");
        refused.append(named);
        refused.append(
            "HttpRefusal {\n  return Object.assign(\n    new Error(`${fault.kind} in operation \\`${fault.operation}\\`: ${fault.detail}`),\n    { fault },\n  );\n}",
        );
        helpers.push(refusal);
        helpers.push(refused);
    }
    assert(views(helpers@) =~= fault_helpers_text(*service));
    helpers
}

} // verus!
