use tixschema::features::Features;

fn none() -> Features {
    Features {
        serde: false,
        zod: false,
        jsonschema: false,
        object_id: false,
        typescript: false,
        chrono: false,
        dart: false,
        kotlin: false,
        swift: false,
    }
}

#[test]
fn a_build_with_no_switch_on_reports_itself_minimal() {
    assert_eq!(none().enabled_features(), vec!["minimal"]);
}

#[test]
fn the_switches_that_are_on_are_reported_in_their_fixed_order() {
    let mut features = none();
    features.dart = true;
    features.serde = true;
    features.typescript = true;
    features.zod = true;
    assert_eq!(
        features.enabled_features(),
        vec!["serde", "zod", "typescript", "dart"]
    );
}

#[test]
fn every_switch_answers_for_itself() {
    let mut features = none();
    features.chrono = true;
    features.object_id = true;
    features.jsonschema = true;
    assert!(features.has_chrono());
    assert!(features.has_object_id());
    assert!(features.has_jsonschema());
    assert!(!features.has_serde());
    assert!(!features.has_zod());
    assert!(!features.has_typescript());
    assert!(!features.has_dart());
    assert!(!features.has_kotlin());
    assert_eq!(
        features.enabled_features(),
        vec!["jsonschema", "object_id", "chrono"]
    );
}

#[test]
fn kotlin_and_swift_are_not_reported() {
    let mut features = none();
    features.kotlin = true;
    features.swift = true;
    assert_eq!(features.enabled_features(), vec!["minimal"]);
}
