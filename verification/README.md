# tixschema

What a schema-publishing derive writes, as verified functions from a described item to text:
TypeScript, Dart and Kotlin declarations for Rust types, and, for a service trait, its registry,
its result types and its clients over `http_rest` and `ws_rpc`. Each function's contract states
the exact text it answers, as a specification over the item's description; the laws in
`src/laws.rs` state what holds across them.

## Layout

- `src/features.rs`: the build's switches and how a build describes itself.
- `src/field_type.rs`, `src/declaration.rs`, `src/service_def.rs`: the descriptions every emitter
  reads: a field's type, a struct's fields, a service's operations and HTTP bindings.
- `src/rename_rule.rs`: serde's `rename_all` rules, and the key a field or the tag a variant is
  written under.
- `src/text.rs`: joining text, and spelling a string as a Rust literal.
- `src/features/dart*`, `src/features/kotlin*`: the Dart and Kotlin surfaces, with the name
  registries a reference reads back.
- `src/features/service_schema*`: the service registry, its TypeScript client, `http_rest`
  client and service side, result types and fault seal, the Dart and Kotlin `http_rest`
  clients, and the Kotlin `ws_rpc` client.
- `src/laws.rs`: the properties that span functions, proved.
- `app/`: the token-stream glue around the library (parsing emitted Rust source into a
  `proc_macro2::TokenStream`).
- `tests/`: the library's tests, on concrete descriptions.

## What it does not write

The registry publishes `ts_definition()`, and with the `zod` switch `ts_client()`,
`ts_http_client()` and `ts_service()` (the interface, outcomes and dispatcher), the Dart
definition with the `dart` switch and the Kotlin `http_rest` client with the `kotlin` switch.
It writes no `ts_http_service()`, no `ws_rpc` TypeScript artifacts (`ts_ws_client()`, `ts_ws_service()`,
`ts_ws_server()`), no Dart result classes and no Dart `ws_rpc` client, and nothing for the
`swift` switch: the switch is carried in `Features` but no Swift surface stands behind it.

A field's type reaches the emitters already described: a sequence is its element with one more
array level, however the Rust source spelled the collection.
