//! The TypeScript a service publishes, behind one registration line.
//!
//! A message the macro declared for a service has nobody to register it by hand: the author never
//! wrote the type. So the service's registry, a unit struct named `<Service>Schema`, answers for
//! the service and for every message it declared in one accessor, `ts_definition()`, read from the
//! same list the messages are written from. The client, the `http_rest` client and the service's
//! dispatcher parse a message against the Zod schema a build with the `zod` switch writes; a build
//! without it publishes none of them, and says on the registry why.
//!
//! A build with the `kotlin` switch publishes the Kotlin `http_rest` client from the registry
//! too.
//!
//! [`emit`] writes the registry as Rust source text; a string it embeds is written as the Rust
//! literal that spells it.
pub mod client;
pub mod dart_http_client;
pub mod fault;
pub mod http_client;
pub mod kotlin_http_client;
pub mod kotlin_ws_client;
pub mod message;
pub mod result;
pub mod service;

use crate::features::kotlin::{tuples_of, KotlinNames, TupleWrappers, Tuples};
use crate::features::Features;
use crate::rename_rule::{snake_case, snake_case_of_variant};
use crate::service_def::ServiceDef;
use crate::text::{join, join_all, rust_string_literal, string_literal, views};
use self::fault::{fault_fields_typescript_name, fields_name, module_ident, module_name};
use self::result::results_text;
use vstd::prelude::*;

verus! {

/// An expression answering `text` as an owned `String`.
pub open spec fn owned_text(text: Seq<char>) -> Seq<char> {
    rust_string_literal(text) + ".to_owned()"@
}

fn owned(text: &str) -> (expr: String)
    ensures
        expr@ == owned_text(text@),
{
    let mut expr = string_literal(text);
    expr.append(".to_owned()");
    expr
}

/// Each of `texts` as an owned-string expression.
pub open spec fn owned_all(texts: Seq<Seq<char>>) -> Seq<Seq<char>> {
    texts.map_values(|t: Seq<char>| owned_text(t))
}

/// Pushes each of `texts`, as an owned-string expression, onto `exprs`.
fn push_owned(exprs: &mut Vec<String>, texts: &Vec<String>)
    ensures
        views(final(exprs)@) == views(old(exprs)@) + owned_all(views(texts@)),
{
    let ghost start = views(exprs@);
    let mut i: usize = 0;
    while i < texts.len()
        invariant
            0 <= i <= texts.len(),
            views(exprs@) == start + owned_all(views(texts@).take(i as int)),
        decreases texts.len() - i,
    {
        let ghost before = views(exprs@);
        let expr = owned(texts[i].as_str());
        exprs.push(expr);
        assert(views(exprs@) =~= before.push(expr@));
        assert(owned_all(views(texts@).take(i + 1)) =~= owned_all(views(texts@).take(i as int)).push(
            owned_text(texts@[i as int]@),
        ));
        i += 1;
    }
    assert(views(texts@).take(texts.len() as int) =~= views(texts@));
}

/// One rustdoc line, as the attribute that carries it.
pub open spec fn doc_attr_text(line: Seq<char>) -> Seq<char> {
    "#[doc = "@ + rust_string_literal(line) + "]\n"@
}

/// Each of `lines` as a rustdoc attribute, one after another.
pub open spec fn docs_text(lines: Seq<Seq<char>>) -> Seq<char>
    decreases lines.len(),
{
    if lines.len() == 0 {
        Seq::empty()
    } else {
        docs_text(lines.drop_last()) + doc_attr_text(lines.last())
    }
}

fn docs(lines: &Vec<String>) -> (text: String)
    ensures
        text@ == docs_text(views(lines@)),
{
    let mut text = String::new();
    let mut i: usize = 0;
    while i < lines.len()
        invariant
            0 <= i <= lines.len(),
            text@ == docs_text(views(lines@).take(i as int)),
        decreases lines.len() - i,
    {
        assert(views(lines@).take(i + 1).drop_last() =~= views(lines@).take(i as int));
        text.append("#[doc = ");
        text.append(string_literal(lines[i].as_str()).as_str());
        text.append("]\n");
        i += 1;
    }
    assert(views(lines@).take(lines.len() as int) =~= views(lines@));
    text
}

/// Why a build without the Zod surface publishes no client and no dispatcher.
pub open spec fn withheld_text(service: Seq<char>) -> Seq<char> {
    " This build publishes no `"@ + service + "Schema::ts_client()`, no `"@ + service
        + "Schema::ts_http_client()`, no `"@ + service + "Schema::ts_http_service()`, no `"@
        + service + "Schema::ts_service()`, no `"@ + service + "Schema::ts_ws_client()`, no `"@
        + service + "Schema::ts_ws_service()`, and no `"@ + service
        + "Schema::ts_ws_server()`. The first six parse a message against the schema `#[model_schema()]` writes for it, and only a build with tixschema's `zod` feature writes one \u{2014} so rather than a client and a dispatcher that check nothing, this build publishes the service's types and leaves the seven seam artifacts out. Add `features = [\"zod\"]` to the tixschema dependency to get them."@
}

/// The registry's own rustdoc: what it is, and, in a build without the Zod surface, why the
/// client and the dispatcher are missing.
pub open spec fn rustdoc_lines(service: Seq<char>, features: Features) -> Seq<Seq<char>> {
    let own = seq![
        " What `"@ + service + "` publishes to TypeScript, in one place per artifact."@,
        Seq::empty(),
        " A bundle names `"@ + service
            + "Schema::ts_definition()` once and receives the service's own types together with every message the macro declared for it, so no generated message needs a registration line of its own."@,
    ];
    if features.zod {
        own
    } else {
        own + seq![Seq::empty(), withheld_text(service)]
    }
}

fn rustdoc(service: &str, features: &Features) -> (lines: Vec<String>)
    ensures
        views(lines@) == rustdoc_lines(service@, *features),
{
    let mut first = String::from_str(" What `");
    first.append(service);
    first.append("` publishes to TypeScript, in one place per artifact.");
    let mut third = String::from_str(" A bundle names `");
    third.append(service);
    third.append(
        "Schema::ts_definition()` once and receives the service's own types together with every message the macro declared for it, so no generated message needs a registration line of its own.",
    );
    let mut lines: Vec<String> = Vec::new();
    lines.push(first);
    lines.push(String::new());
    lines.push(third);
    if !features.zod {
        let mut why = String::from_str(" This build publishes no `");
        why.append(service);
        why.append("Schema::ts_client()`, no `");
        why.append(service);
        why.append("Schema::ts_http_client()`, no `");
        why.append(service);
        why.append("Schema::ts_http_service()`, no `");
        why.append(service);
        why.append("Schema::ts_service()`, no `");
        why.append(service);
        why.append("Schema::ts_ws_client()`, no `");
        why.append(service);
        why.append("Schema::ts_ws_service()`, and no `");
        why.append(service);
        why.append(
            "Schema::ts_ws_server()`. The first six parse a message against the schema `#[model_schema()]` writes for it, and only a build with tixschema's `zod` feature writes one \u{2014} so rather than a client and a dispatcher that check nothing, this build publishes the service's types and leaves the seven seam artifacts out. Add `features = [\"zod\"]` to the tixschema dependency to get them.",
        );
        lines.push(String::new());
        lines.push(why);
    }
    assert(views(lines@) =~= rustdoc_lines(service@, *features));
    lines
}

/// The expressions that register each message the macro declared: its type, and in a build that
/// writes Zod its schema too.
pub open spec fn message_exprs(messages: Seq<String>, zod: bool) -> Seq<Seq<char>>
    decreases messages.len(),
{
    if messages.len() == 0 {
        Seq::empty()
    } else {
        let before = message_exprs(messages.drop_last(), zod);
        let message = messages.last()@;
        if zod {
            before.push(message + "::ts_definition()"@).push(message + "::zod_schema()"@)
        } else {
            before.push(message + "::ts_definition()"@)
        }
    }
}

/// One expression per published artifact, in the order a bundle reads them: every declared
/// message, the fault's kind and fields asked for from the service's own module, the seal, then
/// one result type per operation that answers.
pub open spec fn published_exprs(service: ServiceDef, features: Features) -> Seq<Seq<char>> {
    let named = service.ident@;
    let module = module_name(named);
    message_exprs(service.generated_messages@, features.zod) + seq![
        module + "::"@ + named + "FaultKind::ts_definition()"@,
        module + "::"@ + fields_name(named) + "::ts_definition()"@,
    ] + owned_all(fault::emit_text(named)) + owned_all(
        results_text(named, service.operations@, service.recorded),
    )
}

pub fn published(service: &ServiceDef, features: &Features) -> (exprs: Vec<String>)
    ensures
        views(exprs@) == published_exprs(*service, *features),
{
    let named = service.ident.as_str();
    let mut exprs: Vec<String> = Vec::new();
    let mut i: usize = 0;
    while i < service.generated_messages.len()
        invariant
            0 <= i <= service.generated_messages.len(),
            views(exprs@) == message_exprs(service.generated_messages@.take(i as int), features.zod),
        decreases service.generated_messages.len() - i,
    {
        assert(service.generated_messages@.take(i + 1).drop_last()
            =~= service.generated_messages@.take(i as int));
        let message = service.generated_messages[i].as_str();
        let mut definition = message.to_owned();
        definition.append("::ts_definition()");
        let ghost before = views(exprs@);
        exprs.push(definition);
        assert(views(exprs@) =~= before.push(definition@));
        if features.zod {
            let mut schema = message.to_owned();
            schema.append("::zod_schema()");
            let ghost middle = views(exprs@);
            exprs.push(schema);
            assert(views(exprs@) =~= middle.push(schema@));
        }
        i += 1;
    }
    assert(service.generated_messages@.take(service.generated_messages.len() as int)
        =~= service.generated_messages@);
    let module = module_ident(named);
    let mut kind = module.clone();
    kind.append("::");
    kind.append(named);
    kind.append("FaultKind::ts_definition()");
    let mut fields = module.clone();
    fields.append("::");
    fields.append(fault_fields_typescript_name(named).as_str());
    fields.append("::ts_definition()");
    let ghost before = views(exprs@);
    exprs.push(kind);
    exprs.push(fields);
    assert(views(exprs@) =~= before + seq![kind@, fields@]);
    let seal = fault::emit(named);
    assert(views(seal@) =~= fault::emit_text(named@));
    push_owned(&mut exprs, &seal);
    let results = result::emit(service);
    push_owned(&mut exprs, &results);
    exprs
}

/// An accessor on the registry answering `text`, under its rustdoc.
pub open spec fn accessor_text(docs: Seq<char>, name: Seq<char>, text: Seq<char>) -> Seq<char> {
    docs + "pub fn "@ + name + "() -> String {\n"@ + owned_text(text) + "\n}\n"@
}

fn accessor(docs: &str, name: &str, text: &str) -> (written: String)
    ensures
        written@ == accessor_text(docs@, name@, text@),
{
    let mut written = docs.to_owned();
    written.append("pub fn ");
    written.append(name);
    written.append("() -> String {\n");
    written.append(owned(text).as_str());
    written.append("\n}\n");
    written
}

/// The rustdoc of the client accessor.
pub open spec fn client_docs() -> Seq<char> {
    "#[doc = \" The service's generated TypeScript client: the transport seam it is bound\"]\n#[doc = \" to, the type its methods are declared on, and the factory that binds one.\"]\n"@
}

/// The rustdoc of the `http_rest` client accessor.
pub open spec fn http_client_docs() -> Seq<char> {
    "#[doc = \" The service's generated `http_rest` TypeScript client: the plain-terms request\"]\n#[doc = \" and response seam, the client type, and the factory that binds one to it.\"]\n"@
}

/// The rustdoc of the service-side accessor.
pub open spec fn service_docs() -> Seq<char> {
    "#[doc = \" The service's implementable TypeScript interface, the outcome types an\"]\n#[doc = \" implementation answers with, and the dispatcher factory that drives one.\"]\n"@
}

/// The accessors that parse a message against its schema, present only in a build that writes
/// one: the client, the `http_rest` client, and the service side with its dispatcher.
pub open spec fn seam_text(service: ServiceDef, features: Features) -> Seq<char> {
    if features.zod {
        accessor_text(client_docs(), "ts_client"@, join(client::emit_text(service), "\n\n"@)) + accessor_text(
            http_client_docs(),
            "ts_http_client"@,
            join(http_client::emit_text(service), "\n\n"@),
        ) + accessor_text(service_docs(), "ts_service"@, join(service::service_side_text(service), "\n\n"@))
    } else {
        Seq::empty()
    }
}

fn seam(service: &ServiceDef, features: &Features) -> (written: String)
    ensures
        written@ == seam_text(*service, *features),
{
    if features.zod {
        let client = join_all(&client::emit(service), "\n\n");
        let mut written = accessor(
            "#[doc = \" The service's generated TypeScript client: the transport seam it is bound\"]\n#[doc = \" to, the type its methods are declared on, and the factory that binds one.\"]\n",
            "ts_client",
            client.as_str(),
        );
        let http = join_all(&http_client::emit(service), "\n\n");
        written.append(
            accessor(
                "#[doc = \" The service's generated `http_rest` TypeScript client: the plain-terms request\"]\n#[doc = \" and response seam, the client type, and the factory that binds one to it.\"]\n",
                "ts_http_client",
                http.as_str(),
            ).as_str(),
        );
        let side = join_all(&service::emit(service), "\n\n");
        written.append(
            accessor(
                "#[doc = \" The service's implementable TypeScript interface, the outcome types an\"]\n#[doc = \" implementation answers with, and the dispatcher factory that drives one.\"]\n",
                "ts_service",
                side.as_str(),
            ).as_str(),
        );
        written
    } else {
        String::new()
    }
}

/// The expressions that register the service's Dart: each declared message's definition, then
/// the fault's kind and fields from the service's own module.
pub open spec fn dart_exprs(service: ServiceDef) -> Seq<Seq<char>> {
    let named = service.ident@;
    let module = module_name(named);
    service.generated_messages@.map_values(
        |message: String| snake_case(message@) + "_dart::dart_definition()"@,
    ) + seq![
        module + "::"@ + snake_case(named) + "_fault_kind_dart::dart_definition()"@,
        module + "::"@ + snake_case(named) + "_fault_fields_dart::dart_definition()"@,
    ]
}

/// The Dart accessor, present only in a build with the `dart` switch.
pub open spec fn dart_text(service: ServiceDef, features: Features) -> Seq<char> {
    if features.dart {
        "#[doc = \" Every Dart type this service publishes: the messages the macro declared for it,\"]\n#[doc = \" and the fault's kind and fields.\"]\npub fn dart_definition() -> String {\n["@
            + join(dart_exprs(service), ", "@) + "].join(\"\\n\\n\")\n}\n"@
    } else {
        Seq::empty()
    }
}

fn dart(service: &ServiceDef, features: &Features) -> (written: String)
    ensures
        written@ == dart_text(*service, *features),
{
    if !features.dart {
        return String::new();
    }
    let named = service.ident.as_str();
    let mut exprs: Vec<String> = Vec::new();
    let mut i: usize = 0;
    while i < service.generated_messages.len()
        invariant
            0 <= i <= service.generated_messages.len(),
            views(exprs@) == service.generated_messages@.take(i as int).map_values(
                |message: String| snake_case(message@) + "_dart::dart_definition()"@,
            ),
        decreases service.generated_messages.len() - i,
    {
        let mut expr = snake_case_of_variant(service.generated_messages[i].as_str());
        expr.append("_dart::dart_definition()");
        let ghost before = views(exprs@);
        exprs.push(expr);
        assert(views(exprs@) =~= before.push(expr@));
        assert(service.generated_messages@.take(i + 1).map_values(
            |message: String| snake_case(message@) + "_dart::dart_definition()"@,
        ) =~= service.generated_messages@.take(i as int).map_values(
            |message: String| snake_case(message@) + "_dart::dart_definition()"@,
        ).push(expr@));
        i += 1;
    }
    assert(service.generated_messages@.take(service.generated_messages.len() as int)
        =~= service.generated_messages@);
    let module = module_ident(named);
    let snake = snake_case_of_variant(named);
    let mut kind = module.clone();
    kind.append("::");
    kind.append(snake.as_str());
    kind.append("_fault_kind_dart::dart_definition()");
    let mut fields = module.clone();
    fields.append("::");
    fields.append(snake.as_str());
    fields.append("_fault_fields_dart::dart_definition()");
    let ghost before = views(exprs@);
    exprs.push(kind);
    exprs.push(fields);
    assert(views(exprs@) =~= before + seq![kind@, fields@]);
    let mut written = String::from_str(
        "#[doc = \" Every Dart type this service publishes: the messages the macro declared for it,\"]\n#[doc = \" and the fault's kind and fields.\"]\npub fn dart_definition() -> String {\n[",
    );
    written.append(join_all(&exprs, ", ").as_str());
    written.append("].join(\"\\n\\n\")\n}\n");
    written
}

/// The Kotlin `http_rest` client's accessor, present only in a build with the `kotlin` switch;
/// rendering the client's types may queue tuple wrappers.
pub open spec fn kotlin_text(service: ServiceDef, features: Features, names: KotlinNames, st: Tuples) -> (
    Seq<char>,
    Tuples,
) {
    if features.kotlin {
        let (client, s1) = kotlin_http_client::emit_text(service, names, st);
        (
            accessor_text(
                "#[doc = \" The service's generated `http_rest` Kotlin client: the plain-terms request and\"]\n#[doc = \" response seam, one sealed result per answering operation, and the client class.\"]\n"@,
                "kotlin_http_client"@,
                join(client, "\n\n"@),
            ),
            s1,
        )
    } else {
        (Seq::empty(), st)
    }
}

fn kotlin(service: &ServiceDef, features: &Features, names: &KotlinNames, tuples: &mut TupleWrappers) -> (written:
    String)
    ensures
        (written@, tuples_of(*final(tuples))) == kotlin_text(*service, *features, *names, tuples_of(*old(tuples))),
{
    if !features.kotlin {
        return String::new();
    }
    let client = join_all(&kotlin_http_client::emit(service, names, tuples), "\n\n");
    accessor(
        "#[doc = \" The service's generated `http_rest` Kotlin client: the plain-terms request and\"]\n#[doc = \" response seam, one sealed result per answering operation, and the client class.\"]\n",
        "kotlin_http_client",
        client.as_str(),
    )
}

/// The registry as Rust source: the unit struct named for the service under its rustdoc, and its
/// accessors — `ts_definition()` always, the seam where the build writes Zod, `dart_definition()`
/// where it writes Dart, and `kotlin_http_client()` where it writes Kotlin — with the tuple
/// wrappers the Kotlin client's types queued.
pub open spec fn registry_text(service: ServiceDef, features: Features, names: KotlinNames, st: Tuples) -> (
    Seq<char>,
    Tuples,
) {
    let named = service.ident@;
    let (kotlin_client, s1) = kotlin_text(service, features, names, st);
    (
        docs_text(rustdoc_lines(named, features)) + "pub struct "@ + named + "Schema;\n\nimpl "@ + named
            + "Schema {\n#[doc = \" Every TypeScript type this service publishes: the messages the macro declared\"]\n#[doc = \" for it, the fault a caller can receive, and one result type per operation that\"]\n#[doc = \" answers.\"]\npub fn ts_definition() -> String {\n["@
            + join(published_exprs(service, features), ", "@) + "].join(\"\\n\\n\")\n}\n"@
            + seam_text(service, features) + dart_text(service, features) + kotlin_client + "}\n"@,
        s1,
    )
}

/// The registry a service publishes through, as Rust source text. `names` are the Kotlin names
/// registered so far, and `tuples` the Kotlin tuple wrappers.
pub fn emit(service: &ServiceDef, features: &Features, names: &KotlinNames, tuples: &mut TupleWrappers) -> (registry:
    String)
    ensures
        (registry@, tuples_of(*final(tuples))) == registry_text(*service, *features, *names, tuples_of(*old(tuples))),
{
    let named = service.ident.as_str();
    let mut registry = docs(&rustdoc(named, features));
    registry.append("pub struct ");
    registry.append(named);
    registry.append("Schema;\n\nimpl ");
    registry.append(named);
    registry.append(
        "Schema {\n#[doc = \" Every TypeScript type this service publishes: the messages the macro declared\"]\n#[doc = \" for it, the fault a caller can receive, and one result type per operation that\"]\n#[doc = \" answers.\"]\npub fn ts_definition() -> String {\n[",
    );
    registry.append(join_all(&published(service, features), ", ").as_str());
    registry.append("].join(\"\\n\\n\")\n}\n");
    registry.append(seam(service, features).as_str());
    registry.append(dart(service, features).as_str());
    registry.append(kotlin(service, features, names, tuples).as_str());
    registry.append("}\n");
    registry
}

} // verus!
