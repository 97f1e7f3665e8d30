use wdms2prod::config::Config;
use wdms2prod::core_client::{client_response, CoreStorageClient, CoreStorageClientError};
use wdms2prod::error::{Dependency, ErrorCategory, ErrorCode, WDMSError};

#[test]
fn code_descriptions() {
    assert_eq!(ErrorCode::Parsing.description(), "fail to parse");
    assert_eq!(ErrorCode::UnknownKind.description(), "kind is not unknown");
    assert_eq!(ErrorCode::Connect.description(), "dependency failure: cannot connect");
    assert_eq!(ErrorCode::ErrorStatus(404).to_string(), "dependency error");
    assert_eq!(Dependency::CoreStorage.to_string(), "core storage");
    assert_eq!(Dependency::Unknown.to_string(), "N/A");
}

#[test]
fn error_display_and_status() {
    let e = WDMSError::from_validation("bad".to_string(), None);
    assert_eq!(e.to_string(), "Error on the record, validation failed: bad");
    assert_eq!(e.status_code(), 422);
    let e = WDMSError::from_record(ErrorCode::UnknownKind, "k".to_string(), None);
    assert_eq!(e.to_string(), "Error on the record, kind is not unknown: k");
    let dep = |code| WDMSError {
        category: ErrorCategory::Dependency(Dependency::CoreStorage),
        code,
        description: "d".to_string(),
        source: None,
    };
    assert_eq!(dep(ErrorCode::ErrorStatus(404)).status_code(), 404);
    assert_eq!(dep(ErrorCode::ErrorStatus(99)).status_code(), 500);
    assert_eq!(dep(ErrorCode::ErrorStatus(1000)).status_code(), 500);
    assert_eq!(dep(ErrorCode::Ssl).status_code(), 500);
    assert_eq!(dep(ErrorCode::Ssl).to_string(), "core storage error: d");
    let e = WDMSError::from_json_error("eof".to_string());
    assert_eq!((e.code, e.description.as_str(), e.source.as_deref()), (ErrorCode::Parsing, "eof", Some("eof")));
}

#[test]
fn client_urls() {
    let c = CoreStorageClient::new("http://h:1");
    assert_eq!(c.base_url, "http://h:1/api/v2/storage");
    assert_eq!(c.record_url("r1"), "http://h:1/api/v2/storage/records/r1");
}

#[test]
fn client_answers() {
    let ok = client_response(200, "application/json".to_string(), Ok(b"{}".to_vec())).unwrap();
    assert_eq!((ok.content_type.as_str(), ok.payload.as_slice()), ("application/json", &b"{}"[..]));
    match client_response(404, "text/plain".to_string(), Ok(b"no \xffrecord".to_vec())) {
        Err(CoreStorageClientError::ErrorStatusCode(404, body)) => assert_eq!(body, "no \u{fffd}record"),
        other => panic!("{:?}", other),
    }
    match client_response(200, "x".to_string(), Err("broken".to_string())) {
        Err(CoreStorageClientError::PayloadError(m)) => assert_eq!(m, "broken"),
        other => panic!("{:?}", other),
    }
    assert!(client_response(299, String::new(), Ok(vec![])).is_ok());
    assert!(client_response(300, String::new(), Ok(vec![])).is_err());
}

#[test]
fn client_errors() {
    let e = WDMSError::from_client_error(CoreStorageClientError::ErrorStatusCode(404, "nope".to_string()));
    assert_eq!(e.category, ErrorCategory::Dependency(Dependency::CoreStorage));
    assert_eq!(e.code, ErrorCode::ErrorStatus(404));
    assert_eq!(e.description, "nope");
    assert_eq!(e.source.as_deref(), Some("error 404 Not Found: nope"));
    assert_eq!(e.status_code(), 404);
    let e = WDMSError::from_client_error(CoreStorageClientError::SendError("timeout".to_string()));
    assert_eq!((e.code, e.description.as_str()), (ErrorCode::SendRequest, "communication error"));
    assert_eq!(e.source.as_deref(), Some("internal core client failure"));
    assert_eq!(e.status_code(), 500);
    let e = WDMSError::from_client_error(CoreStorageClientError::PayloadError("x".to_string()));
    assert_eq!(e.code, ErrorCode::Payload);
    assert_eq!(
        CoreStorageClientError::ErrorStatusCode(599, String::new()).to_string(),
        "error 599 <unknown status code>: "
    );
}

#[test]
fn default_config() {
    let c = Config::default();
    assert!(!c.dev_mode);
    assert_eq!(c.host_core_storage, "http://127.0.0.1:8788");
    assert!(c.enable_logging);
    let v: serde_json::Value = serde_json::from_str(wdms2prod::config::DEFAULT_CONFIG).unwrap();
    assert_eq!(v["host_core_storage"], c.host_core_storage.as_str());
    assert_eq!(v["dev_mode"], c.dev_mode);
    assert_eq!(v["enable_logging"], c.enable_logging);
}
