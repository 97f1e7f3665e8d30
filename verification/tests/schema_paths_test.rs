use jsonschema::JSONSchema;
use url::Url;
use wdms2prod::json::ValidationFailure;
use wdms2prod::schema_prefix::{
    kind_to_prefix, osdu_schema_ref_to_path, supported_schema_defs, validator_from_kind, EntitySchemaDef,
    EntityType, PrefixValidators,
};
use wdms2prod::validation::{osdu_schema_ref_to_local_path, validation_error_descr};

#[test]
fn record_test_osdu_schema_ref_to_path() {
    let actual = osdu_schema_ref_to_path(
        Url::parse("https://schema.osdu.opengroup.org/json/foo/bar.json").unwrap().as_str(),
    )
    .unwrap();
    assert_eq!("res/schemas/foo/bar.json".to_string(), actual);
}

#[test]
fn record_test_invalid_osdu_schema_ref_to_path() {
    assert!(osdu_schema_ref_to_path(Url::parse("https://unknown/json/foo/bar.json").unwrap().as_str()).is_none());
}

#[test]
fn validation_test_osdu_schema_ref_to_path() {
    let actual = osdu_schema_ref_to_local_path(
        Url::parse("https://schema.osdu.opengroup.org/json/foo/bar.json").unwrap().as_str(),
    )
    .unwrap();
    assert_eq!("res/schemas/foo/bar.json".to_string(), actual);
}

#[test]
fn validation_test_invalid_osdu_schema_ref_to_path() {
    assert!(osdu_schema_ref_to_local_path(Url::parse("https://unknown/json/foo/bar.json").unwrap().as_str()).is_none());
}

#[test]
fn schema_ref_edge_cases() {
    assert_eq!(osdu_schema_ref_to_local_path("https://schema.osdu.opengroup.org/json/"), Some("res/schemas/".to_string()));
    assert_eq!(osdu_schema_ref_to_local_path("https://schema.osdu.opengroup.org/json"), None);
    assert_eq!(osdu_schema_ref_to_local_path(""), None);
}

#[test]
fn test_kind_to_prefix() {
    assert_eq!(
        kind_to_prefix("osdu:wks:work-product-component--WellLog:1.2.0").unwrap(),
        "work-product-component--WellLog:1.2.0"
    );
}

#[test]
fn kind_prefix_edge_cases() {
    assert_eq!(kind_to_prefix("abc"), Some("abc"));
    assert_eq!(kind_to_prefix("a:b"), Some("b"));
    assert_eq!(kind_to_prefix("a:b:"), Some(""));
    assert_eq!(kind_to_prefix("::x:y"), Some("x:y"));
}

#[test]
fn test_validator_from_kind() {
    let validators = PrefixValidators::new();
    assert!(validator_from_kind(&validators, "a:b:c:1.1.0").is_err());
}

#[test]
fn validator_found_by_prefix() {
    let mut validators = PrefixValidators::new();
    let schema: serde_json::Value = serde_json::from_str("{}").unwrap();
    validators.insert("c:1.1.0", JSONSchema::compile(&schema).unwrap());
    assert!(validator_from_kind(&validators, "a:b:c:1.1.0").is_ok());
    assert_eq!(validator_from_kind(&validators, "a:b:c:1.2.0").err().unwrap(), "unsupported kind a:b:c:1.2.0");
    assert!(validators.get("c:1.1.0").is_some());
}

#[test]
fn schema_defs() {
    assert!(supported_schema_defs().is_empty());
    let d = EntitySchemaDef(EntityType::WellLog, "work-product-component--WellLog:1.2.0", "work-product-component/WellLog.1.2.0.json");
    assert_eq!(d.kind_prefix(), "work-product-component--WellLog:1.2.0");
    assert_eq!(d.schema_file(), "work-product-component/WellLog.1.2.0.json");
}

#[test]
fn test_foo() {}

#[test]
fn failure_description() {
    let f = ValidationFailure {
        instance_path: "/data".to_string(),
        schema_path: "/properties/data/type".to_string(),
        message: "1 is not of type \"object\"".to_string(),
    };
    assert_eq!(validation_error_descr(&f), "/data (/properties/data/type): 1 is not of type \"object\"");
}
