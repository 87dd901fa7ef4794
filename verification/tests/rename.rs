use tixschema::declaration::NamedField;
use tixschema::features::dart::tagged::{DartVariant, VariantPayload};
use tixschema::features::kotlin::enums::{KotlinPayload, KotlinVariant};
use tixschema::field_type::{FieldDef, FieldDefType, MapKeyWire};
use tixschema::rename_rule::{item_export_name, wire_field_name, wire_variant_name, RenameRule};

fn string_field() -> FieldDef {
    FieldDef {
        field_type: FieldDefType::String,
        array_depth: 0,
        nullable_levels: Vec::new(),
        optional: false,
        as_number: false,
        nullable: false,
        map_key_wire: MapKeyWire::Named,
        parameter_shape: false,
    }
}

#[test]
fn rename_all_names_each_of_serdes_rules() {
    assert!(RenameRule::named(Some("camelCase")) == RenameRule::CamelCase);
    assert!(RenameRule::named(Some("SCREAMING-KEBAB-CASE")) == RenameRule::ScreamingKebabCase);
    assert!(RenameRule::named(Some("snake_case")) == RenameRule::SnakeCase);
    assert!(RenameRule::named(None) == RenameRule::Verbatim);
    assert!(RenameRule::named(Some("Camel")) == RenameRule::Verbatim);
}

#[test]
fn a_field_name_is_rewritten_under_each_rule() {
    let field = "get_available_balance";
    assert_eq!(RenameRule::Verbatim.apply_to_field(field), "get_available_balance");
    assert_eq!(RenameRule::LowerCase.apply_to_field(field), "get_available_balance");
    assert_eq!(RenameRule::UpperCase.apply_to_field(field), "GET_AVAILABLE_BALANCE");
    assert_eq!(RenameRule::PascalCase.apply_to_field(field), "GetAvailableBalance");
    assert_eq!(RenameRule::CamelCase.apply_to_field(field), "getAvailableBalance");
    assert_eq!(RenameRule::ScreamingSnakeCase.apply_to_field(field), "GET_AVAILABLE_BALANCE");
    assert_eq!(RenameRule::KebabCase.apply_to_field(field), "get-available-balance");
    assert_eq!(RenameRule::ScreamingKebabCase.apply_to_field(field), "GET-AVAILABLE-BALANCE");
}

#[test]
fn a_variant_name_is_rewritten_under_each_rule() {
    let variant = "AvailableBalance";
    assert_eq!(RenameRule::Verbatim.apply_to_variant(variant), "AvailableBalance");
    assert_eq!(RenameRule::LowerCase.apply_to_variant(variant), "availablebalance");
    assert_eq!(RenameRule::UpperCase.apply_to_variant(variant), "AVAILABLEBALANCE");
    assert_eq!(RenameRule::CamelCase.apply_to_variant(variant), "availableBalance");
    assert_eq!(RenameRule::SnakeCase.apply_to_variant(variant), "available_balance");
    assert_eq!(RenameRule::ScreamingSnakeCase.apply_to_variant(variant), "AVAILABLE_BALANCE");
    assert_eq!(RenameRule::KebabCase.apply_to_variant(variant), "available-balance");
    assert_eq!(RenameRule::ScreamingKebabCase.apply_to_variant(variant), "AVAILABLE-BALANCE");
}

#[test]
fn an_explicit_rename_wins_over_the_containers_rule() {
    assert_eq!(wire_field_name("credit_id", Some("creditRef"), RenameRule::CamelCase), "creditRef");
    assert_eq!(wire_field_name("credit_id", None, RenameRule::CamelCase), "creditId");
    assert_eq!(wire_variant_name("NotFound", Some("missing"), RenameRule::SnakeCase), "missing");
    assert_eq!(wire_variant_name("NotFound", None, RenameRule::SnakeCase), "not_found");
    assert_eq!(item_export_name("UsageService", Some("Usage")), "Usage");
    assert_eq!(item_export_name("UsageService", None), "UsageService");
}

#[test]
fn declared_fields_and_variants_take_their_wire_names_from_serde() {
    let renamed = NamedField::declared(
        "credit_id".to_owned(),
        Some("ref".to_owned()),
        RenameRule::CamelCase,
        string_field(),
        false,
        false,
        false,
    );
    assert_eq!(renamed.wire_name, "ref");
    let ruled = NamedField::declared(
        "credit_id".to_owned(),
        None,
        RenameRule::KebabCase,
        string_field(),
        false,
        true,
        false,
    );
    assert_eq!(ruled.wire_name, "credit-id");
    assert!(ruled.omits_key);
    let dart = DartVariant::declared("NotFound".to_owned(), None, RenameRule::ScreamingSnakeCase, VariantPayload::Unit);
    assert_eq!(dart.wire_tag, "NOT_FOUND");
    let kotlin = KotlinVariant::declared("NotFound".to_owned(), Some("gone".to_owned()), RenameRule::CamelCase, KotlinPayload::Unit);
    assert_eq!(kotlin.wire_tag, "gone");
}
