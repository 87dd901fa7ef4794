//! The Dart `http_rest` client: one transport seam over structural request and response records,
//! the refusal a one-way method throws, the client class with one method per operation that
//! builds a plain-terms request from the operation's message and reads the answer by status, and
//! the private helpers those methods reach for.
//!
//! A reply method answers `Future<{Service}{Operation}Result>` and never throws for a declared
//! error or a fault; a one-way method answers `Future<void>` and throws `{Service}HttpRefusal`,
//! having no reply to carry a fault through.
pub mod calls;
pub mod request;
pub mod response;
pub mod wire;

use crate::features::dart::DartNames;
use crate::rename_rule::{camel_case_of_variant, lower_first};
use crate::service_def::{any_one_way, has_one_way, ServiceDef};
use crate::text::views;
use calls::{
    client_class, client_class_text, fault_helpers, fault_helpers_text, refusal_class, refusal_class_text,
    transport_seam, transport_seam_text,
};
use vstd::prelude::*;

verus! {

/// Everything the client publishes, in order: the transport seam, the refusal where an operation
/// is one-way, the client class, and its helpers.
pub open spec fn emit_text(service: ServiceDef, names: DartNames) -> Seq<Seq<char>> {
    let named = service.ident@;
    let refusal = if any_one_way(service.operations@) {
        seq![refusal_class_text(named)]
    } else {
        Seq::empty()
    };
    seq![transport_seam_text(named)] + refusal + seq![client_class_text(service, names)] + fault_helpers_text(
        service,
        lower_first(named),
    )
}

pub fn emit(service: &ServiceDef, names: &DartNames) -> (published: Vec<String>)
    ensures
        views(published@) == emit_text(*service, *names),
{
    let named = service.ident.as_str();
    let fn_prefix = camel_case_of_variant(named);
    let mut published: Vec<String> = Vec::new();
    published.push(transport_seam(named));
    if has_one_way(service) {
        published.push(refusal_class(named));
    }
    published.push(client_class(service, names));
    let ghost with_client = views(published@);
    let mut helpers = fault_helpers(service, fn_prefix.as_str());
    let ghost helper_views = views(helpers@);
    published.append(&mut helpers);
    assert(views(published@) =~= with_client + helper_views);
    assert(views(published@) =~= emit_text(*service, *names));
    published
}

} // verus!
