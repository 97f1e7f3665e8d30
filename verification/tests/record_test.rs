use jsonschema::JSONSchema;
use serde_json::Value;
use wdms2prod::error::{ErrorCategory, ErrorCode};
use wdms2prod::json::{document_shape, DocumentShape, ValidationFailure};
use wdms2prod::model::record::{self as model, EntityKindSlice, EntitySource, EntityType, Record};
use wdms2prod::record::record::{self as plain, EntityKind};
use wdms2prod::record::version::SemVer;
use wdms2prod::schema::{supported_schemas, SchemaRegistry};

fn compile(text: &str) -> JSONSchema {
    let schema: Value = serde_json::from_str(text).unwrap();
    JSONSchema::compile(&schema).unwrap()
}

/// The supported table, each schema given by its text in `schemas` (by position).
fn registry_with(schemas: &[&str]) -> SchemaRegistry {
    let mut table = Vec::new();
    let mut n = 0;
    for (component, versions) in supported_schemas() {
        let mut loaded = Vec::new();
        for (pattern, _file) in versions {
            loaded.push((pattern, compile(schemas[n])));
            n += 1;
        }
        table.push((component, loaded));
    }
    SchemaRegistry::from_loaded(table)
}

fn open_registry() -> SchemaRegistry {
    registry_with(&["{}", "{}", "{}"])
}

const WELL_LOG: &str = r#"{"kind": "osdu:wks:work-product-component--WellLog:1.2.0", "id": "x", "data": {}}"#;

#[test]
fn record_test_parse_kind() {
    let kind = EntityKind::parse("osdu:wks:work-product-component--WellLog:1.2.50").unwrap();
    println!("ns1: {}", kind.ns1);
    println!("ns2: {}", kind.ns2);
    println!("component: {}", kind.component);
    println!("version: {:?}", kind.version);
    let slice = EntityKindSlice::parse("osdu:wks:work-product-component--WellLog:1.2.50").unwrap();
    assert_eq!(slice.component, kind.component);

    let registry = open_registry();
    let sc = plain::schema_from_kind(&registry, "osdu:wks:work-product-component--WellLog:1.2.50");
    assert!(sc.is_some());
    let sc = model::schema_from_kind(&registry, "osdu:wks:work-product-component--WellLog:1.2.50");
    assert!(sc.is_ok());
}

#[test]
fn supported_table() {
    let table = supported_schemas();
    assert_eq!(table.len(), 1);
    assert_eq!(table[0].0, "work-product-component--WellLog");
    for (kind, _) in &table[0].1 {
        assert!(matches!(kind.e_type, EntityType::WellLog));
        assert!(matches!(kind.source, EntitySource::OSDU));
    }
    let files: Vec<(String, &str)> = table[0].1.iter().map(|(k, f)| (k.version.to_string(), *f)).collect();
    assert_eq!(
        files,
        vec![
            ("1.1.*".to_string(), "work-product-component/WellLog.1.1.0.json"),
            ("1.0.*".to_string(), "work-product-component/WellLog.1.0.0.json"),
            ("1.*.*".to_string(), "work-product-component/WellLog.1.2.0.json"),
        ]
    );
}

#[test]
fn schema_selection_by_version() {
    // 1.1.* refuses everything, 1.0.* needs `data`, 1.*.* takes anything
    let registry = registry_with(&["false", r#"{"required": ["data"]}"#, "{}"]);
    let doc = |v: &str| format!(r#"{{"kind": "osdu:wks:work-product-component--WellLog:{}"}}"#, v);
    assert!(Record::from_string(&registry, &doc("1.1.7")).is_err());
    let e = Record::from_string(&registry, &doc("1.0.3")).err().unwrap();
    assert_eq!(e.code, ErrorCode::ValidationFailed);
    assert!(e.description.contains("required"), "{}", e.description);
    let r = Record::from_string(&registry, &doc("1.2.9")).unwrap();
    assert_eq!(r.kind.version, SemVer::from_str("1.2.9").unwrap());
    assert!(matches!(r.kind.e_type, EntityType::WellLog));
    let e = Record::from_string(&registry, &doc("2.0.0")).err().unwrap();
    assert_eq!(e.code, ErrorCode::UnknownKind);
    assert_eq!(e.description, "osdu:wks:work-product-component--WellLog:2.0.0");
}

#[test]
fn record_from_slice_ok() {
    let registry = open_registry();
    let r = Record::from_slice(&registry, WELL_LOG.as_bytes()).unwrap();
    assert_eq!(r.value["id"], "x");
    assert_eq!(r.kind.version, SemVer::from_str("1.2.0").unwrap());
}

#[test]
fn record_parsing_error() {
    let registry = open_registry();
    let e = Record::from_string(&registry, "{ not json").err().unwrap();
    assert_eq!(e.category, ErrorCategory::Record);
    assert_eq!(e.code, ErrorCode::Parsing);
    let expected = serde_json::from_str::<Value>("{ not json").err().unwrap().to_string();
    assert_eq!(e.description, expected);
    assert_eq!(e.source, Some(expected));
}

#[test]
fn record_shape_errors() {
    let registry = open_registry();
    let e = Record::from_string(&registry, "[1, 2]").err().unwrap();
    assert_eq!(e.code, ErrorCode::ValidationFailed);
    assert_eq!(e.description, "Invalid record, an object is expected");
    let e = Record::from_string(&registry, r#"{"kind": 3}"#).err().unwrap();
    assert_eq!(e.description, "kind field is missing");
    let e = Record::from_string(&registry, r#"{"kind": "osdu:x"}"#).err().unwrap();
    assert_eq!(e.code, ErrorCode::ValidationFailed);
    assert_eq!(e.description, "invalid kind: osdu:x");
    let e = Record::from_string(&registry, r#"{"kind": "osdu:wks:master-data--Well:1.0.0"}"#).err().unwrap();
    assert_eq!(e.code, ErrorCode::UnknownKind);
    assert_eq!(e.description, "osdu:wks:master-data--Well:1.0.0");
    assert_eq!(e.source, None);
}

#[test]
fn record_from_json_value() {
    let registry = open_registry();
    let value: Value = serde_json::from_str(WELL_LOG).unwrap();
    let r = Record::from_json(&registry, value.clone()).unwrap();
    assert_eq!(r.value, value);
    let e = model::validate_record(&registry, &Value::Null).err().unwrap();
    assert_eq!(e.description, "Invalid record, an object is expected");
}

#[test]
fn failures_are_described_and_joined() {
    let registry = registry_with(&["{}", "{}", r#"{"required": ["a", "b"]}"#]);
    let e = Record::from_string(&registry, r#"{"kind": "osdu:wks:work-product-component--WellLog:1.2.0"}"#)
        .err()
        .unwrap();
    assert_eq!(e.description, r#" (/required): "a" is a required property,  (/required): "b" is a required property"#);
}

#[test]
fn plain_record_unvalidated() {
    let value: Value = serde_json::from_str(WELL_LOG).unwrap();
    let r = plain::Record::from_object_unvalidated(value).unwrap();
    assert_eq!(r.as_map().unwrap().kind(), Some("osdu:wks:work-product-component--WellLog:1.2.0"));
    let (v, msg) = plain::Record::from_object_unvalidated(Value::Bool(true)).err().unwrap();
    assert_eq!(v, Value::Bool(true));
    assert_eq!(msg, "not an object");
    let r = plain::Record::from_json(r#"{"a": 1}"#).unwrap();
    assert_eq!(r.as_map().unwrap().kind(), None);
    assert_eq!(plain::Record::from_json("3").err().unwrap(), "not an object");
    assert!(plain::Record::from_json("{").is_err());
}

#[test]
fn plain_record_validated() {
    let registry = registry_with(&["{}", "{}", r#"{"required": ["data"]}"#]);
    let value: Value = serde_json::from_str(WELL_LOG).unwrap();
    assert!(plain::Record::from_object_validated(&registry, value).is_ok());
    let value: Value = serde_json::from_str(r#"{"kind": "osdu:wks:work-product-component--WellLog:1.2.0"}"#).unwrap();
    let (_, errs) = plain::Record::from_object_validated(&registry, value).err().unwrap();
    assert_eq!(errs, vec![r#" (/required): "data" is a required property"#.to_string()]);
    let (_, errs) = plain::Record::from_object_validated(&registry, Value::Null).err().unwrap();
    assert_eq!(errs, vec!["not an object".to_string()]);
    let r = plain::Record::from_json(r#"{"kind": "a:b:c:1.0.0"}"#).unwrap();
    assert_eq!(r.validate(&registry), Err(vec!["no schema found".to_string()]));
    let r = plain::Record::from_json(r#"{}"#).unwrap();
    assert_eq!(r.validate(&registry), Err(vec!["no schema found".to_string()]));
}

#[test]
fn registry_insert_replaces() {
    let mut registry = SchemaRegistry::new();
    assert!(registry.lookup("c", &SemVer::any()).is_none());
    let kind = |v: SemVer| model::EntityKind {
        e_type: EntityType::Uncategorised("c".to_string()),
        source: EntitySource::OSDU,
        version: v,
    };
    registry.insert("c", vec![(kind(SemVer::any_minor(1)), compile("false"))]);
    registry.insert("c", vec![(kind(SemVer::any_minor(2)), compile("{}"))]);
    assert!(registry.lookup("c", &SemVer::from_str("1.0.0").unwrap()).is_none());
    let s = registry.lookup("c", &SemVer::from_str("2.0.0").unwrap()).unwrap();
    assert!(s.is_valid(&Value::Null));
    assert!(registry.lookup("d", &SemVer::from_str("2.0.0").unwrap()).is_none());
}

#[test]
fn shapes_read_from_documents() {
    let shape = |text: &str| document_shape(&serde_json::from_str::<Value>(text).unwrap());
    assert!(matches!(shape("[1]"), DocumentShape::NotAnObject));
    assert!(matches!(shape("null"), DocumentShape::NotAnObject));
    assert!(matches!(shape("{}"), DocumentShape::Object { kind: None }));
    assert!(matches!(shape(r#"{"kind": 3}"#), DocumentShape::Object { kind: None }));
    match shape(r#"{"kind": "a:b:c:1.0.0", "x": 1}"#) {
        DocumentShape::Object { kind: Some(k) } => assert_eq!(k, "a:b:c:1.0.0"),
        other => panic!("unexpected shape {:?}", other),
    }
}

#[test]
fn failures_become_messages() {
    assert_eq!(plain::failures_result(&vec![]), Ok(()));
    let f = |p: &str| ValidationFailure { instance_path: p.to_string(), schema_path: "/s".to_string(), message: "m".to_string() };
    assert_eq!(
        plain::failures_result(&vec![f("/a"), f("/b")]),
        Err(vec!["/a (/s): m".to_string(), "/b (/s): m".to_string()])
    );
}

#[test]
fn records_from_given_shapes() {
    let registry = registry_with(&["{}", "{}", r#"{"required": ["data"]}"#]);
    let doc: Value = serde_json::from_str(r#"{"kind": "osdu:wks:work-product-component--WellLog:1.2.0"}"#).unwrap();
    let e = model::validate_shaped(&registry, &doc, &DocumentShape::Object { kind: None }).err().unwrap();
    assert_eq!(e.description, "kind field is missing");
    let k = model::validate_shaped(
        &open_registry(),
        &doc,
        &DocumentShape::Object { kind: Some("acme:x:work-product-component--WellLog:1.9.0".to_string()) },
    )
    .unwrap();
    assert!(matches!(k.source, wdms2prod::model::record::EntitySource::Uncategorised(_)));
}

#[test]
fn conclusion_from_failures() {
    let ok = model::conclude_validation("osdu:wks:work-product-component--WellLog:1.0.0", &vec![]).unwrap();
    assert_eq!(ok.version, SemVer::from_str("1.0.0").unwrap());
    let f = |p: &str| ValidationFailure { instance_path: p.to_string(), schema_path: "/s".to_string(), message: "m".to_string() };
    let e = model::conclude_validation("osdu:wks:c:1.0.0", &vec![f("/a"), f("/b")]).err().unwrap();
    assert_eq!(e.description, "/a (/s): m, /b (/s): m");
    let e = model::conclude_validation("bad", &vec![]).err().unwrap();
    assert_eq!(e.description, "invalid kind: bad");
}
