use wdms2prod::record::version::{SemVer, SemVerToken};

#[test]
fn test_parse_semver() {
    let v = SemVer::from_str("1.0.5").unwrap();
    assert_eq!(v.major.value().unwrap(), 1);
    assert_eq!(v.minor.value().unwrap(), 0);
    assert_eq!(v.patch.value().unwrap(), 5);
    assert_eq!(v.to_string(), "1.0.5");

    let v = SemVer::from_str("1.0.*").unwrap();
    assert_eq!(v.major.value().unwrap(), 1);
    assert_eq!(v.minor.value().unwrap(), 0);
    assert!(v.patch.value().is_none());
    assert_eq!(v.to_string(), "1.0.*");

    let v = SemVer::from_str("54.*.1235").unwrap();
    assert_eq!(v.major.value().unwrap(), 54);
    assert!(v.minor.value().is_none());
    assert_eq!(v.patch.value().unwrap(), 1235);
    assert_eq!(v.to_string(), "54.*.1235");
}

#[test]
fn test_match_semver() {
    let v = SemVer::from_str("1.0.5").unwrap();
    assert!(v.is_match("1.0.5"));
    assert!(!v.is_match("1.0.*"));
    assert!(!v.is_match("1.0.42"));
    assert!(!v.is_match("1.1.5"));
    assert!(!v.is_match("2.0.5"));

    let v = SemVer::from_str("1.0.*").unwrap();
    assert!(v.is_match("1.0.5"));
    assert!(v.is_match("1.0.*"));
    assert!(v.is_match("1.0.42"));
    assert!(!v.is_match("1.1.5"));
    assert!(!v.is_match("2.0.5"));

    let v = SemVer::from_str("1.*.*").unwrap();
    assert!(v.is_match("1.0.5"));
    assert!(v.is_match("1.0.42"));
    assert!(v.is_match("1.1.5"));
    assert!(!v.is_match("2.0.5"));

    let v = SemVer::from_str("*.*.*").unwrap();
    assert!(v.is_match("1.0.5"));
    assert!(v.is_match("1.0.42"));
    assert!(v.is_match("1.1.5"));
    assert!(v.is_match("2.0.5"));
}

#[test]
fn token_reads_wildcard_and_numbers() {
    assert_eq!(SemVerToken::from_str("*"), Ok(SemVerToken::Any));
    assert_eq!(SemVerToken::from_str("0"), Ok(SemVerToken::Number(0)));
    assert_eq!(SemVerToken::from_str("65535"), Ok(SemVerToken::Number(65535)));
    assert_eq!(SemVerToken::from_str("+7"), Ok(SemVerToken::Number(7)));
    assert_eq!(SemVerToken::from_str("007"), Ok(SemVerToken::Number(7)));
}

#[test]
fn token_errors_name_the_text() {
    assert_eq!(SemVerToken::from_str("65536"), Err("65536 is invalid".to_string()));
    assert_eq!(SemVerToken::from_str(""), Err(" is invalid".to_string()));
    assert_eq!(SemVerToken::from_str("+"), Err("+ is invalid".to_string()));
    assert_eq!(SemVerToken::from_str("-1"), Err("-1 is invalid".to_string()));
    assert_eq!(SemVerToken::from_str("**"), Err("** is invalid".to_string()));
    assert_eq!(SemVerToken::from_str("1a"), Err("1a is invalid".to_string()));
}

#[test]
fn token_parse_agrees_with_std() {
    for s in ["0", "1", "+12", "65535", "65536", "-0", "", "+", "99999", "00065535", "١"] {
        let ours = SemVerToken::from_str(s);
        match s.parse::<u16>() {
            Ok(v) => assert_eq!(ours, Ok(SemVerToken::Number(v)), "{}", s),
            Err(_) => assert!(ours.is_err() || s == "*", "{}", s),
        }
    }
}

#[test]
fn semver_errors() {
    assert_eq!(SemVer::from_str("1.2"), Err("1.2 invalid semver".to_string()));
    assert_eq!(SemVer::from_str("12"), Err("12 invalid semver".to_string()));
    assert_eq!(SemVer::from_str("a.2.3"), Err("a is invalid".to_string()));
    assert_eq!(SemVer::from_str("1.b.c"), Err("b is invalid".to_string()));
    assert_eq!(SemVer::from_str("1.2.3.4"), Err("3.4 is invalid".to_string()));
    assert_eq!(SemVer::from_str("1..3"), Err(" is invalid".to_string()));
}

#[test]
fn semver_from_str_trait() {
    let v: SemVer = "1.0.5".parse().unwrap();
    assert_eq!(v, SemVer { major: SemVerToken::Number(1), minor: SemVerToken::Number(0), patch: SemVerToken::Number(5) });
    assert!("1.0".parse::<SemVer>().is_err());
}

#[test]
fn constructors() {
    assert_eq!(SemVer::any().to_string(), "*.*.*");
    assert_eq!(SemVer::any_minor(3).to_string(), "3.*.*");
    assert_eq!(SemVer::any_patch(3, 14).to_string(), "3.14.*");
    assert_eq!(SemVer::from_str("1.1.*").unwrap(), SemVer::any_patch(1, 1));
}

#[test]
fn text_roundtrip_on_values() {
    for v in [SemVer::any(), SemVer::any_minor(0), SemVer::any_patch(65535, 10), SemVer::from_str("10.200.3000").unwrap()] {
        assert_eq!(SemVer::from_str(&v.to_string()).unwrap(), v);
    }
    // leading zeros and a plus sign are read, but written canonically
    assert_eq!(SemVer::from_str("+01.002.3").unwrap().to_string(), "1.2.3");
}

#[test]
fn matching_laws_on_values() {
    let p = SemVer::any_minor(1);
    let q = SemVer::any_patch(1, 2);
    let v = SemVer::from_str("1.2.3").unwrap();
    assert!(v.is_match_other(&v));
    assert!(p.is_match_other(&q) && q.is_match_other(&v) && p.is_match_other(&v));
    assert!(SemVer::any().is_match_other(&q));
    assert!(!v.is_match_other(&q));
    assert!(SemVerToken::Any.is_match(&SemVerToken::Number(4)));
    assert!(!SemVerToken::Number(4).is_match(&SemVerToken::Any));
}

#[test]
fn canonical_text_reads_and_writes_back() {
    for text in ["1.*.30", "0.0.0", "*.*.*", "65535.10.*"] {
        assert_eq!(SemVer::from_str(text).unwrap().to_string(), text);
    }
    // not canonical: a sign or a leading zero is dropped on the way back
    assert_eq!(SemVer::from_str("+1.01.2").unwrap().to_string(), "1.1.2");
}
