//! Text generation for services and models: the TypeScript, Dart and Kotlin a service or a
//! model publishes, rendered from a plain description of it.
pub mod rename_rule;
pub mod service_def;
pub mod features;
pub mod laws;
pub mod field_type;
pub mod text;
pub mod declaration;
pub mod wire_laws;
