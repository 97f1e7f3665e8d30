use actix_web::http::header::{self, HeaderMap, HeaderName, HeaderValue};
use wdms2prod::extractors::{CaptureHeaders, CommonHeaders, EnsureHeaders, ReprArray, AUTHORIZATION, DATA_PARTITION};

fn name(n: &'static str) -> HeaderName {
    HeaderName::from_static(n)
}

#[test]
fn toto() {
    let t = CommonHeaders::get_array().len();
    assert_eq!(t, 2);
}

#[test]
fn test_capture_headers() {
    let mut headers = HeaderMap::new();
    headers.append(header::CONTENT_TYPE, HeaderValue::from_static("custom-value"));
    headers.append(name(DATA_PARTITION), HeaderValue::from_static("partition"));
    let captured: CaptureHeaders<CommonHeaders> = CaptureHeaders::from(&headers);
    assert_eq!(captured.headers().get(DATA_PARTITION).unwrap().to_str().unwrap(), "partition");
    let header_map: HeaderMap = captured.into_headers();
    assert!(!header_map.contains_key(header::CONTENT_TYPE));
    assert!(header_map.contains_key(DATA_PARTITION));
}

#[test]
fn capture_keeps_first_value_only() {
    let mut headers = HeaderMap::new();
    headers.append(header::AUTHORIZATION, HeaderValue::from_static("one"));
    headers.append(header::AUTHORIZATION, HeaderValue::from_static("two"));
    let captured = CaptureHeaders::<CommonHeaders>::from(&headers);
    assert_eq!(captured.headers().get(AUTHORIZATION).unwrap(), "one");
    assert_eq!(captured.headers().get_all(AUTHORIZATION).count(), 1);
    assert!(!captured.headers().contains_key(DATA_PARTITION));
    assert_eq!(captured.headers().len(), 1);
}

#[test]
fn capture_from_empty_map() {
    let captured = CaptureHeaders::<CommonHeaders>::from(&HeaderMap::new());
    assert!(captured.headers().is_empty());
}

#[test]
fn ensure_headers() {
    let mut m = HeaderMap::new();
    m.append(header::AUTHORIZATION, HeaderValue::from_static("Bearer x"));
    assert_eq!(EnsureHeaders::<CommonHeaders>::check(&m).err(), Some("missing header: data-partition-id".to_string()));
    let mut m2 = HeaderMap::new();
    m2.append(name(DATA_PARTITION), HeaderValue::from_static("dp"));
    assert_eq!(EnsureHeaders::<CommonHeaders>::check(&m2).err(), Some("missing header: authorization".to_string()));
    m.append(name(DATA_PARTITION), HeaderValue::from_static("dp"));
    assert!(EnsureHeaders::<CommonHeaders>::check(&m).is_ok());
}

#[test]
fn header_names_ignore_case() {
    let mut m = HeaderMap::new();
    m.append(HeaderName::from_bytes(b"Data-Partition-ID").unwrap(), HeaderValue::from_static("dp"));
    m.append(HeaderName::from_bytes(b"Authorization").unwrap(), HeaderValue::from_static("Bearer x"));
    assert!(EnsureHeaders::<CommonHeaders>::check(&m).is_ok());
    let captured = CaptureHeaders::<CommonHeaders>::from(&m);
    assert_eq!(captured.headers().get("DATA-PARTITION-ID").unwrap(), "dp");
    assert_eq!(captured.headers().get("authorization").unwrap(), "Bearer x");
}
