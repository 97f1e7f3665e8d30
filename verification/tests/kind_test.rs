use wdms2prod::model::record::{EntityKind as ClassifiedKind, EntityKindSlice, EntitySource, EntityType};
use wdms2prod::record::record::EntityKind;
use wdms2prod::record::version::SemVer;

#[test]
fn parse_kind_parts() {
    let kind = EntityKind::parse("osdu:wks:work-product-component--WellLog:1.2.50").unwrap();
    assert_eq!(kind.ns1, "osdu");
    assert_eq!(kind.ns2, "wks");
    assert_eq!(kind.component, "work-product-component--WellLog");
    assert_eq!(kind.version, SemVer::from_str("1.2.50").unwrap());
}

#[test]
fn parse_kind_failures() {
    assert!(EntityKind::parse("osdu:wks:1.2.0").is_none());
    assert!(EntityKind::parse("osdu:wks:c:1.2").is_none());
    assert!(EntityKind::parse("").is_none());
    assert!(EntityKindSlice::parse("a:b:c:x.y.z").is_none());
    // the version is everything after the third colon
    assert!(EntityKind::parse("a:b:c:1.2.3:4").is_none());
}

#[test]
fn parse_kind_empty_parts() {
    let k = EntityKindSlice::parse(":::*.*.*").unwrap();
    assert_eq!((k.ns1, k.ns2, k.component), ("", "", ""));
    assert_eq!(k.version, SemVer::any());
}

#[test]
fn classify_kind() {
    let k = ClassifiedKind::try_from("osdu:wks:work-product-component--WellLog:1.2.0").unwrap();
    assert!(matches!(k.e_type, EntityType::WellLog));
    assert!(matches!(k.source, EntitySource::OSDU));
    assert_eq!(k.version, SemVer::from_str("1.2.0").unwrap());

    let k = ClassifiedKind::try_from("acme:wks:master-data--Well:2.0.*").unwrap();
    match k.e_type {
        EntityType::Uncategorised(s) => assert_eq!(s, "master-data--Well"),
        _ => panic!("unexpected type"),
    }
    match k.source {
        EntitySource::Uncategorised(s) => assert_eq!(s, "acme"),
        _ => panic!("unexpected source"),
    }
    assert!(ClassifiedKind::try_from("osdu:wks").is_err());
    assert!(EntityKindSlice::try_from("osdu:wks:a:1").is_err());
}

#[test]
fn classify_from_parts() {
    assert!(matches!(EntityType::from("work-product-component--WellLog"), EntityType::WellLog));
    assert!(matches!(EntityType::from("work-product-component--welllog"), EntityType::Uncategorised(_)));
    assert!(matches!(EntitySource::from("osdu"), EntitySource::OSDU));
    assert!(matches!(EntitySource::from("OSDU"), EntitySource::Uncategorised(_)));
}

#[test]
fn kind_text_reads_back() {
    for (ns1, ns2, component, version) in [
        ("osdu", "wks", "work-product-component--WellLog", "1.2.0"),
        ("", "x", "y", "*.*.*"),
        ("a-b.c", "d_e", "f", "0.65535.7"),
    ] {
        let text = format!("{}:{}:{}:{}", ns1, ns2, component, version);
        let k = EntityKind::parse(&text).unwrap();
        assert_eq!((k.ns1, k.ns2, k.component), (ns1, ns2, component));
        assert_eq!(k.version.to_string(), version);
    }
}

#[test]
fn kind_parse_checks_only_split_and_version() {
    let k = wdms2prod::model::record::EntityKindSlice::parse("::c:1.0.0").unwrap();
    assert_eq!((k.ns1, k.ns2, k.component), ("", "", "c"));
    let k = wdms2prod::model::record::EntityKindSlice::parse("a b:x:c d:1.*.*").unwrap();
    assert_eq!(k.component, "c d");
    assert!(wdms2prod::model::record::EntityKindSlice::parse("a:b:c:1.x.0").is_none());
}
