//! The TypeScript `http_rest` client: one service-agnostic transport seam, and one method per
//! operation that builds a plain-terms request from the operation's own message and decodes the
//! answer by status.
//!
//! The seam is a request record in (method, path, query, headers, body) and a response record
//! out (status, headers, body), with nothing service-specific in either, so one hand-written
//! implementation over any HTTP stack satisfies every service's alias of it.
//!
//! A REST answer carries no envelope on the wire; a method still answers the operation's own
//! `{Service}{Operation}Result`: `{ ok: true, value }` on the declared status, `{ ok: false, error:
//! declared }` on a mapped status, and `{ ok: false, error: { isServiceFault: true, fault } }`
//! everywhere else. A one-way method answers `Promise<void>` and throws its refusal instead.
//!
//! Every method validates its message before it builds anything. A message failing its schema,
//! a transport that cannot carry the call, a status the client did not expect and the wire's own
//! fixed fault statuses (400, 404, 500) all answer the service's one fault type.
pub mod calls;
pub mod helpers;
pub mod request;
pub mod response;

use crate::service_def::{any_body, declares_body, BodyKind, ServiceDef};
use crate::text::views;
use calls::{client_type, client_type_text, factory, factory_text};
use helpers::{fault_helpers, fault_helpers_text, transport_type, transport_type_text};
use vstd::prelude::*;

verus! {

/// Everything the client publishes, in the order a bundle reads it: the transport seam, the
/// client type, the fault helpers, then the factory that calls them.
pub open spec fn emit_text(service: ServiceDef) -> Seq<Seq<char>> {
    seq![
        transport_type_text(service.ident@, any_body(service.operations@, BodyKind::Multipart)),
        client_type_text(service),
    ] + fault_helpers_text(service) + seq![factory_text(service)]
}

pub fn emit(service: &ServiceDef) -> (published: Vec<String>)
    ensures
        views(published@) == emit_text(*service),
{
    let has_multipart = declares_body(service, BodyKind::Multipart);
    let mut published: Vec<String> = Vec::new();
    published.push(transport_type(service.ident.as_str(), has_multipart));
    published.push(client_type(service));
    let ghost head = views(published@);
    let mut helpers = fault_helpers(service);
    let ghost helper_views = views(helpers@);
    published.append(&mut helpers);
    assert(views(published@) =~= head + helper_views);
    let ghost before = views(published@);
    let f = factory(service);
    published.push(f);
    assert(views(published@) =~= before.push(f@));
    assert(views(published@) =~= emit_text(*service));
    published
}

} // verus!
