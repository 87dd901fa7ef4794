//! The TypeScript client: a factory over an injected transport, with one camelCase method per
//! operation.
//!
//! Every method parses its message against the message's own schema first. A failure answers
//! with a fault **without reaching the transport**, naming the key that failed: the operation
//! never ran, so what came back is not one of the errors it declared.
//!
//! A one-way operation's method answers `Promise<void>`, so a refused message cannot come back as
//! a value. It is thrown instead, as a `<Service>Refusal` carrying the fault on a `fault`
//! property, which the method's own `JSDoc` names.
use super::fault::{minted, minted_text, FAILED_VALIDATION_MEMBERS};
use super::message::{schema, schema_text, typename, typename_text};
use super::result::{opt_view, result_name, result_name_text};
use crate::field_type::{is_unit_type, unit_type, Recorded};
use crate::rename_rule::{camel_case_of_variant, lower_first};
use crate::service_def::{any_one_way, has_one_way, OperationDef, OperationOutcome, ServiceDef};
use crate::text::{join, join_all, views};
use vstd::prelude::*;

verus! {

/// What one operation's method answers: its own result type, or nothing for a one-way operation.
pub open spec fn answers_text(service: Seq<char>, operation: OperationDef) -> Seq<char> {
    match result_name_text(service, operation) {
        Some(name) => name,
        None => "void"@,
    }
}

pub(crate) fn answers(service: &str, operation: &OperationDef) -> (answered: String)
    ensures
        answered@ == answers_text(service@, *operation),
{
    match result_name(service, operation) {
        Some(name) => name,
        None => String::from_str("void"),
    }
}

/// The transport seam: an operation name, a payload, and an answer.
pub open spec fn transport_type_text(service: Seq<char>) -> Seq<char> {
    "/**\n \
     * What binds a `"@ + service + "` client to a bus.\n \
     *\n \
     * The operation name travels beside the payload rather than inside it, so no message type \
     has\n \
     * to reserve a key for routing. The payload is handed over as a value rather than as \
     bytes:\n \
     * a transport merges its own fields — a correlation id, an error flag — into the object \
     before\n \
     * serializing it, and neither is reachable behind an encoded buffer.\n \
     */\n\
     export type "@ + service + "Transport = {\n  \
     /** Sends a message no reply is expected for. */\n  \
     notify(operation: string, payload: unknown): Promise<void>;\n  \
     /** Sends a message and answers with the reply the far side wrote. */\n  \
     request<Answered>(operation: string, payload: unknown): Promise<Answered>;\n\
     };"@
}

fn transport_type(service: &str) -> (ts: String)
    ensures
        ts@ == transport_type_text(service@),
{
    let mut t = String::from_str(
        "/**\n \
     * What binds a `",
    );
    t.append(service);
    t.append(
        "` client to a bus.\n \
     *\n \
     * The operation name travels beside the payload rather than inside it, so no message type \
     has\n \
     * to reserve a key for routing. The payload is handed over as a value rather than as \
     bytes:\n \
     * a transport merges its own fields — a correlation id, an error flag — into the object \
     before\n \
     * serializing it, and neither is reachable behind an encoded buffer.\n \
     */\n\
     export type ",
    );
    t.append(service);
    t.append(
        "Transport = {\n  \
     /** Sends a message no reply is expected for. */\n  \
     notify(operation: string, payload: unknown): Promise<void>;\n  \
     /** Sends a message and answers with the reply the far side wrote. */\n  \
     request<Answered>(operation: string, payload: unknown): Promise<Answered>;\n\
     };",
    );
    t
}

/// A one-line summary of what a method sends.
pub open spec fn method_summary_text(service: Seq<char>, operation: OperationDef) -> Seq<char> {
    match operation.outcome {
        OperationOutcome::OneWay => "Sends `"@ + operation.wire_name@ + "` on `"@ + service
            + "`, which expects no reply."@,
        OperationOutcome::Reply { .. } => "Calls `"@ + operation.wire_name@ + "` on `"@ + service
            + "` and waits for the answer."@,
    }
}

fn method_summary(service: &str, operation: &OperationDef) -> (summary: String)
    ensures
        summary@ == method_summary_text(service@, *operation),
{
    let mut t = match operation.outcome {
        OperationOutcome::OneWay => String::from_str("Sends `"),
        OperationOutcome::Reply { .. } => String::from_str("Calls `"),
    };
    t.append(operation.wire_name.as_str());
    t.append("` on `");
    t.append(service);
    match operation.outcome {
        OperationOutcome::OneWay => t.append("`, which expects no reply."),
        OperationOutcome::Reply { .. } => t.append("` and waits for the answer."),
    }
    t
}

/// What a method's `JSDoc` says it throws: only a one-way method throws at all.
pub open spec fn throws_clause_text(service: Seq<char>, operation: OperationDef) -> Seq<char> {
    match operation.outcome {
        OperationOutcome::OneWay => "   * @throws {"@ + service
            + "Refusal} when the message fails its own schema. The \
             operation\n   \
             * answers `Promise<void>`, so there is no failure arm to put the fault in; the \
             transport\n   \
             * is still never reached."@,
        OperationOutcome::Reply { .. } => Seq::empty(),
    }
}

fn throws_clause(service: &str, operation: &OperationDef) -> (thrown: String)
    ensures
        thrown@ == throws_clause_text(service@, *operation),
{
    match operation.outcome {
        OperationOutcome::OneWay => {
            let mut t = String::from_str("   * @throws {");
            t.append(service);
            t.append(
                "Refusal} when the message fails its own schema. The \
             operation\n   \
             * answers `Promise<void>`, so there is no failure arm to put the fault in; the \
             transport\n   \
             * is still never reached.",
            );
            t
        },
        OperationOutcome::Reply { .. } => String::new(),
    }
}

/// The method's own `JSDoc`: one line where the signature already says everything, a block where
/// it does not.
pub open spec fn method_doc_text(service: Seq<char>, operation: OperationDef) -> Seq<char> {
    let summary = method_summary_text(service, operation);
    let thrown = throws_clause_text(service, operation);
    if thrown.len() == 0 {
        "  /** "@ + summary + " */"@
    } else {
        "  /**\n   * "@ + summary + "\n   *\n"@ + thrown + "\n   */"@
    }
}

fn method_doc(service: &str, operation: &OperationDef) -> (doc: String)
    ensures
        doc@ == method_doc_text(service@, *operation),
{
    let summary = method_summary(service, operation);
    let thrown = throws_clause(service, operation);
    if thrown.unicode_len() == 0 {
        let mut t = String::from_str("  /** ");
        t.append(summary.as_str());
        t.append(" */");
        t
    } else {
        let mut t = String::from_str("  /**\n   * ");
        t.append(summary.as_str());
        t.append("\n   *\n");
        t.append(thrown.as_str());
        t.append("\n   */");
        t
    }
}

/// One member of the client type.
pub open spec fn member_text(service: Seq<char>, operation: OperationDef, recorded: Recorded) -> Seq<
    char,
> {
    method_doc_text(service, operation) + "\n  "@ + operation.ts_name@ + "(req: "@ + typename_text(
        operation,
        recorded,
    ) + "): Promise<"@ + answers_text(service, operation) + ">;"@
}

fn member(service: &str, operation: &OperationDef, recorded: &Recorded) -> (ts: String)
    ensures
        ts@ == member_text(service@, *operation, *recorded),
{
    let mut t = method_doc(service, operation);
    t.append("\n  ");
    t.append(operation.ts_name.as_str());
    t.append("(req: ");
    t.append(typename(operation, recorded).as_str());
    t.append("): Promise<");
    t.append(answers(service, operation).as_str());
    t.append(">;");
    t
}

/// The client type: one method per operation.
pub open spec fn client_type_text(service: ServiceDef) -> Seq<char> {
    let named = service.ident@;
    let methods = join(
        service.operations@.map_values(
            |operation: OperationDef| member_text(named, operation, service.recorded),
        ),
        "\n"@,
    );
    "/**\n \
     * A `"@ + named + "` caller, over any transport that can send an operation name beside a \
     payload.\n \
     *\n \
     * Every operation the service declares has a method here. A request-and-reply operation \
     answers\n \
     * its own result type; a one-way operation answers nothing beyond the send.\n \
     */\n\
     export type "@ + named + "Client = {\n"@ + methods + "\n};"@
}

fn client_type(service: &ServiceDef) -> (ts: String)
    ensures
        ts@ == client_type_text(*service),
{
    let named = service.ident.as_str();
    let ghost all = service.operations@.map_values(
        |operation: OperationDef| member_text(named@, operation, service.recorded),
    );
    let mut members: Vec<String> = Vec::new();
    let mut i: usize = 0;
    while i < service.operations.len()
        invariant
            0 <= i <= service.operations.len(),
            all == service.operations@.map_values(
                |operation: OperationDef| member_text(named@, operation, service.recorded),
            ),
            views(members@) == all.take(i as int),
        decreases service.operations.len() - i,
    {
        let one = member(named, &service.operations[i], &service.recorded);
        let ghost before = views(members@);
        members.push(one);
        assert(views(members@) =~= before.push(one@));
        assert(all.take(i + 1) =~= all.take(i as int).push(all[i as int]));
        i += 1;
    }
    assert(all.take(service.operations.len() as int) =~= all);
    let methods = join_all(&members, "\n");
    let mut t = String::from_str(
        "/**\n \
     * A `",
    );
    t.append(named);
    t.append(
        "` caller, over any transport that can send an operation name beside a \
     payload.\n \
     *\n \
     * Every operation the service declares has a method here. A request-and-reply operation \
     answers\n \
     * its own result type; a one-way operation answers nothing beyond the send.\n \
     */\n\
     export type ",
    );
    t.append(named);
    t.append("Client = {\n");
    t.append(methods.as_str());
    t.append("\n};");
    t
}

/// The outbound check and the refusal it leads to.
pub open spec fn validation_text(service: Seq<char>, operation: OperationDef, recorded: Recorded) -> Seq<
    char,
> {
    let prefix = lower_first(service);
    let wire = operation.wire_name@;
    let refusal = match operation.outcome {
        OperationOutcome::OneWay => "        throw "@ + prefix + "Refused("@ + prefix
            + "OutboundFault(\""@ + wire + "\", validated.error.issues));"@,
        OperationOutcome::Reply { .. } => "        return {\n          \
             ok: false,\n          \
             error: {\n            \
             isServiceFault: true,\n            \
             fault: "@ + prefix + "OutboundFault(\""@ + wire
            + "\", validated.error.issues),\n          \
             },\n        \
             };"@,
    };
    "      const validated = "@ + schema_text(operation, recorded)
        + ".safeParse(req);\n      \
         if (!validated.success) {\n"@ + refusal + "\n      \
         }\n"@
}

fn validation(service: &str, operation: &OperationDef, recorded: &Recorded) -> (ts: String)
    ensures
        ts@ == validation_text(service@, *operation, *recorded),
{
    let prefix = camel_case_of_variant(service);
    let wire = operation.wire_name.as_str();
    let refusal = match operation.outcome {
        OperationOutcome::OneWay => {
            let mut t = String::from_str("        throw ");
            t.append(prefix.as_str());
            t.append("Refused(");
            t.append(prefix.as_str());
            t.append("OutboundFault(\"");
            t.append(wire);
            t.append("\", validated.error.issues));");
            t
        },
        OperationOutcome::Reply { .. } => {
            let mut t = String::from_str(
                "        return {\n          \
             ok: false,\n          \
             error: {\n            \
             isServiceFault: true,\n            \
             fault: ",
            );
            t.append(prefix.as_str());
            t.append("OutboundFault(\"");
            t.append(wire);
            t.append(
                "\", validated.error.issues),\n          \
             },\n        \
             };",
            );
            t
        },
    };
    let mut t = String::from_str("      const validated = ");
    t.append(schema(operation, recorded).as_str());
    t.append(
        ".safeParse(req);\n      \
         if (!validated.success) {\n",
    );
    t.append(refusal.as_str());
    t.append("\n      \
         }\n");
    t
}

/// One method on the factory's returned object: parse the message, then reach the transport. A
/// unit success normalizes `value` to `undefined`, whatever the transport handed back.
pub open spec fn method_text(service: Seq<char>, operation: OperationDef, recorded: Recorded) -> Seq<
    char,
> {
    let wire = operation.wire_name@;
    let sending = match operation.outcome {
        OperationOutcome::OneWay => "      await transport.notify(\""@ + wire
            + "\", validated.data);"@,
        OperationOutcome::Reply { error: _, success } => if unit_type(success, recorded) {
            "      const answered = await transport.request<"@ + answers_text(service, operation)
                + ">(\""@ + wire
                + "\", \
             validated.data);\n      \
             return answered.ok === true ? { ok: true, value: undefined } : answered;"@
        } else {
            "      return transport.request<"@ + answers_text(service, operation) + ">(\""@ + wire
                + "\", validated.data);"@
        },
    };
    "    async "@ + operation.ts_name@ + "(req) {\n"@ + validation_text(service, operation, recorded)
        + sending + "\n    },"@
}

fn method(service: &str, operation: &OperationDef, recorded: &Recorded) -> (ts: String)
    ensures
        ts@ == method_text(service@, *operation, *recorded),
{
    let wire = operation.wire_name.as_str();
    let sending = match &operation.outcome {
        OperationOutcome::OneWay => {
            let mut t = String::from_str("      await transport.notify(\"");
            t.append(wire);
            t.append("\", validated.data);");
            t
        },
        OperationOutcome::Reply { error: _, success } => {
            if is_unit_type(success, recorded) {
                let mut t = String::from_str("      const answered = await transport.request<");
                t.append(answers(service, operation).as_str());
                t.append(">(\"");
                t.append(wire);
                t.append(
                    "\", \
             validated.data);\n      \
             return answered.ok === true ? { ok: true, value: undefined } : answered;",
                );
                t
            } else {
                let mut t = String::from_str("      return transport.request<");
                t.append(answers(service, operation).as_str());
                t.append(">(\"");
                t.append(wire);
                t.append("\", validated.data);");
                t
            }
        },
    };
    let mut t = String::from_str("    async ");
    t.append(operation.ts_name.as_str());
    t.append("(req) {\n");
    t.append(validation(service, operation, recorded).as_str());
    t.append(sending.as_str());
    t.append("\n    },");
    t
}

/// The factory: it binds a transport and answers with the client.
pub open spec fn factory_text(service: ServiceDef) -> Seq<char> {
    let named = service.ident@;
    let methods = join(
        service.operations@.map_values(
            |operation: OperationDef| method_text(named, operation, service.recorded),
        ),
        "\n"@,
    );
    "/**\n \
     * Binds a `"@ + named + "` client to a transport.\n \
     *\n \
     * The operation name is handed to the transport beside the payload, never inside it, so \
     no\n \
     * message type has to reserve a key for routing.\n \
     */\n\
     export function create"@ + named + "Client(transport: "@ + named + "Transport): "@ + named
        + "Client {\n  \
     return {\n"@ + methods + "\n  \
     };\n\
     }"@
}

fn factory(service: &ServiceDef) -> (ts: String)
    ensures
        ts@ == factory_text(*service),
{
    let named = service.ident.as_str();
    let ghost all = service.operations@.map_values(
        |operation: OperationDef| method_text(named@, operation, service.recorded),
    );
    let mut methods: Vec<String> = Vec::new();
    let mut i: usize = 0;
    while i < service.operations.len()
        invariant
            0 <= i <= service.operations.len(),
            all == service.operations@.map_values(
                |operation: OperationDef| method_text(named@, operation, service.recorded),
            ),
            views(methods@) == all.take(i as int),
        decreases service.operations.len() - i,
    {
        let one = method(named, &service.operations[i], &service.recorded);
        let ghost before = views(methods@);
        methods.push(one);
        assert(views(methods@) =~= before.push(one@));
        assert(all.take(i + 1) =~= all.take(i as int).push(all[i as int]));
        i += 1;
    }
    assert(all.take(service.operations.len() as int) =~= all);
    let joined = join_all(&methods, "\n");
    let mut t = String::from_str(
        "/**\n \
     * Binds a `",
    );
    t.append(named);
    t.append(
        "` client to a transport.\n \
     *\n \
     * The operation name is handed to the transport beside the payload, never inside it, so \
     no\n \
     * message type has to reserve a key for routing.\n \
     */\n\
     export function create",
    );
    t.append(named);
    t.append("Client(transport: ");
    t.append(named);
    t.append("Transport): ");
    t.append(named);
    t.append("Client {\n  \
     return {\n");
    t.append(joined.as_str());
    t.append("\n  \
     };\n\
     }");
    t
}

/// The fault a validation failure answers with.
pub open spec fn outbound_fault_text(service: Seq<char>) -> Seq<char> {
    "/**\n \
     * The fault a `"@ + service + "` client answers with when the message it was about to send failed \
     its\n \
     * own schema. The operation never ran, so this is not one of the errors it declared, and \
     the\n \
     * transport was never reached.\n \
     */\n\
     function "@ + lower_first(service)
        + "OutboundFault(\n  \
     operation: string,\n  \
     issues: ReadonlyArray<{ path: ReadonlyArray<PropertyKey>; message: string }>,\n\
     ): "@ + service + "Fault {\n  \
     const [first] = issues;\n  \
     const failedAt = first === undefined ? \"\" : first.path.join(\".\");\n"@ + minted_text(
        service,
        FAILED_VALIDATION_MEMBERS@,
    ) + "\n}"@
}

/// What a one-way method throws.
pub open spec fn refusal_type_text(service: Seq<char>) -> Seq<char> {
    "/**\n \
     * What a one-way `"@ + service + "` method throws when it refuses the message it was \
     handed.\n \
     *\n \
     * `Promise<void>` has no failure arm and no value position, so the fault rides on \
     the\n \
     * thrown error rather than on something returned. Narrow a caught error with \
     `\"fault\" in\n \
     * caught` to read it.\n \
     */\n\
     export type "@ + service + "Refusal = Error & { fault: "@ + service + "Fault };"@
}

/// How a one-way method reports a message it refused.
pub open spec fn refused_fn_text(service: Seq<char>) -> Seq<char> {
    "/**\n \
     * How a one-way `"@ + service + "` method reports a message it refused. It answers \
     `Promise<void>`,\n \
     * so there is no failure arm to put a fault in and it is thrown instead — the \
     transport\n \
     * still never reached, the defect still visible.\n \
     */\n\
     function "@ + lower_first(service) + "Refused(fault: "@ + service + "Fault): "@ + service
        + "Refusal {\n  \
     return Object.assign(\n    \
     new Error(`${fault.kind} in operation \\`${fault.operation}\\`: \
     ${fault.detail}`),\n    \
     { fault },\n  \
     );\n\
     }"@
}

/// The readers a validation failure goes through, and the thrower only where a one-way operation
/// needs somewhere to put a fault.
pub open spec fn fault_helpers_text(service: ServiceDef) -> Seq<Seq<char>> {
    let named = service.ident@;
    if any_one_way(service.operations@) {
        seq![outbound_fault_text(named), refusal_type_text(named), refused_fn_text(named)]
    } else {
        seq![outbound_fault_text(named)]
    }
}

fn fault_helpers(service: &ServiceDef) -> (helpers: Vec<String>)
    ensures
        views(helpers@) == fault_helpers_text(*service),
{
    let named = service.ident.as_str();
    let prefix = camel_case_of_variant(named);
    let mut outbound = String::from_str(
        "/**\n \
     * The fault a `",
    );
    outbound.append(named);
    outbound.append(
        "` client answers with when the message it was about to send failed \
     its\n \
     * own schema. The operation never ran, so this is not one of the errors it declared, and \
     the\n \
     * transport was never reached.\n \
     */\n\
     function ",
    );
    outbound.append(prefix.as_str());
    outbound.append(
        "OutboundFault(\n  \
     operation: string,\n  \
     issues: ReadonlyArray<{ path: ReadonlyArray<PropertyKey>; message: string }>,\n\
     ): ",
    );
    outbound.append(named);
    outbound.append(
        "Fault {\n  \
     const [first] = issues;\n  \
     const failedAt = first === undefined ? \"\" : first.path.join(\".\");\n",
    );
    outbound.append(minted(named, FAILED_VALIDATION_MEMBERS).as_str());
    outbound.append("\n}");
    let mut helpers: Vec<String> = Vec::new();
    helpers.push(outbound);
    if has_one_way(service) {
        let mut refusal = String::from_str(
            "/**\n \
     * What a one-way `",
        );
        refusal.append(named);
        refusal.append(
            "` method throws when it refuses the message it was \
     handed.\n \
     *\n \
     * `Promise<void>` has no failure arm and no value position, so the fault rides on \
     the\n \
     * thrown error rather than on something returned. Narrow a caught error with \
     `\"fault\" in\n \
     * caught` to read it.\n \
     */\n\
     export type ",
        );
        refusal.append(named);
        refusal.append("Refusal = Error & { fault: ");
        refusal.append(named);
        refusal.append("Fault };");
        let mut refused = String::from_str(
            "/**\n \
     * How a one-way `",
        );
        refused.append(named);
        refused.append(
            "` method reports a message it refused. It answers \
     `Promise<void>`,\n \
     * so there is no failure arm to put a fault in and it is thrown instead — the \
     transport\n \
     * still never reached, the defect still visible.\n \
     */\n\
     function ",
        );
        refused.append(prefix.as_str());
        refused.append("Refused(fault: ");
        refused.append(named);
        refused.append("Fault): ");
        refused.append(named);
        refused.append(
            "Refusal {\n  \
     return Object.assign(\n    \
     new Error(`${fault.kind} in operation \\`${fault.operation}\\`: \
     ${fault.detail}`),\n    \
     { fault },\n  \
     );\n\
     }",
        );
        helpers.push(refusal);
        helpers.push(refused);
    }
    assert(views(helpers@) =~= fault_helpers_text(*service));
    helpers
}

/// Everything the client publishes, in the order a bundle reads it: the transport seam, the
/// client type, the fault readers, then the factory that calls them.
pub open spec fn emit_text(service: ServiceDef) -> Seq<Seq<char>> {
    seq![transport_type_text(service.ident@), client_type_text(service)] + fault_helpers_text(
        service,
    ) + seq![factory_text(service)]
}

pub fn emit(service: &ServiceDef) -> (published: Vec<String>)
    ensures
        views(published@) == emit_text(*service),
{
    let mut published: Vec<String> = Vec::new();
    published.push(transport_type(service.ident.as_str()));
    published.push(client_type(service));
    let helpers = fault_helpers(service);
    let mut i: usize = 0;
    while i < helpers.len()
        invariant
            0 <= i <= helpers.len(),
            views(published@) == seq![
                transport_type_text(service.ident@),
                client_type_text(*service),
            ] + views(helpers@).take(i as int),
        decreases helpers.len() - i,
    {
        let ghost before = views(published@);
        published.push(helpers[i].clone());
        assert(views(published@) =~= before.push(helpers@[i as int]@));
        assert(views(helpers@).take(i + 1) =~= views(helpers@).take(i as int).push(
            helpers@[i as int]@,
        ));
        i += 1;
    }
    assert(views(helpers@).take(helpers.len() as int) =~= views(helpers@));
    let ghost before = views(published@);
    let f = factory(service);
    published.push(f);
    assert(views(published@) =~= before.push(f@));
    assert(views(published@) =~= emit_text(*service));
    published
}

} // verus!
