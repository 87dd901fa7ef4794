//! The fault a service's callers can receive, sealed.
//!
//! The fault's fields and the kind it reports are ordinary published types of the service's own
//! module, asked for by name. What this adds beside them is the seal: a symbol the bundle declares
//! and exports nowhere, and the fault a caller names declared as those fields plus a property
//! keyed on that symbol — a type a caller reads exactly like the fields, and one an
//! implementation cannot write.
use crate::rename_rule::{lower_first, snake_case, camel_case_of_variant, snake_case_of_variant};
use vstd::prelude::*;

verus! {

/// The name the fault's fields publish under: `UsageService` answers `UsageServiceFaultFields`.
pub open spec fn fields_name(service: Seq<char>) -> Seq<char> {
    service + "FaultFields"@
}

pub fn fault_fields_typescript_name(service: &str) -> (name: String)
    ensures
        name@ == fields_name(service@),
{
    let mut name = service.to_owned();
    name.append("FaultFields");
    name
}

/// The service's own module: `UsageService` lives in `usage_service_schema`.
pub open spec fn module_name(service: Seq<char>) -> Seq<char> {
    snake_case(service) + "_schema"@
}

pub fn module_ident(service: &str) -> (module: String)
    ensures
        module@ == module_name(service@),
{
    let mut module = snake_case_of_variant(service);
    module.append("_schema");
    module
}

/// The statement that answers a fault built from `members`: the object, asserted to be the sealed
/// fault, which only generated code is entitled to do.
pub open spec fn minted_text(service: Seq<char>, members: Seq<char>) -> Seq<char> {
    "  return {\n"@ + members + "\n  } as "@ + service + "Fault;"@
}

pub fn minted(service: &str, members: &str) -> (minted: String)
    ensures
        minted@ == minted_text(service@, members@),
{
    let mut minted = String::from_str("  return {\n");
    minted.append(members);
    minted.append("\n  } as ");
    minted.append(service);
    minted.append("Fault;");
    minted
}

/// The seal: a symbol declared for the bundle and exported nowhere.
pub open spec fn seal_text(service: Seq<char>) -> Seq<char> {
    "/**\n * The brand a `"@ + service
        + "Fault` carries. Declared here and exported nowhere, so no code outside\n * the bundle can name the key, and no object it writes can carry it.\n */\ndeclare const "@
        + lower_first(service) + "FaultSeal: unique symbol;"@
}

/// The sealed fault: the published fields, plus the brand.
pub open spec fn sealed_text(service: Seq<char>) -> Seq<char> {
    "/**\n * A fault a `"@ + service
        + "` caller can receive: the fields the Rust declaration publishes, under\n * a brand only the generated client and dispatcher write.\n */\nexport type "@
        + service + "Fault = "@ + fields_name(service) + " & {\n  readonly ["@ + lower_first(
        service,
    ) + "FaultSeal]: true;\n};"@
}

/// The fault's own declarations, in the order a bundle reads them: the seal, then the fault.
pub open spec fn emit_text(service: Seq<char>) -> Seq<Seq<char>> {
    seq![seal_text(service), sealed_text(service)]
}

pub fn emit(service: &str) -> (published: Vec<String>)
    ensures
        published@.len() == 2,
        published@[0]@ == seal_text(service@),
        published@[1]@ == sealed_text(service@),
{
    let prefix = camel_case_of_variant(service);
    let mut seal = String::from_str("/**\n * The brand a `");
    seal.append(service);
    seal.append(
        "Fault` carries. Declared here and exported nowhere, so no code outside\n * the bundle can name the key, and no object it writes can carry it.\n */\ndeclare const ",
    );
    seal.append(prefix.as_str());
    seal.append("FaultSeal: unique symbol;");
    let mut sealed = String::from_str("/**\n * A fault a `");
    sealed.append(service);
    sealed.append(
        "` caller can receive: the fields the Rust declaration publishes, under\n * a brand only the generated client and dispatcher write.\n */\nexport type ",
    );
    sealed.append(service);
    sealed.append("Fault = ");
    sealed.append(fault_fields_typescript_name(service).as_str());
    sealed.append(" & {\n  readonly [");
    sealed.append(prefix.as_str());
    sealed.append("FaultSeal]: true;\n};");
    let mut published = Vec::new();
    published.push(seal);
    published.push(sealed);
    published
}

/// The members of a fault built from a schema's own issues: every issue's message, the key the
/// first one was at, and the kind a failed check reports.
pub const FAILED_VALIDATION_MEMBERS: &'static str = "    detail: issues\n      \
     .map((issue) =>\n        \
     issue.path.length === 0 ? issue.message : `'${issue.path.join(\".\")}': \
     ${issue.message}`,\n      \
     )\n      \
     .join(\"; \"),\n    \
     field: failedAt === \"\" ? undefined : failedAt,\n    \
     kind: \"failed-validation\",\n    \
     operation,";

} // verus!
