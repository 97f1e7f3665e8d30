//! The decisions of the core storage client: where records are fetched
//! from, how an answer of the storage service is classified, and how a
//! failure becomes an error of the service.
use vstd::prelude::*;
use vstd::utf8::{decode_utf8, valid_utf8};
use crate::error::{Dependency, ErrorCategory, ErrorCode, ErrorView, WDMSError};
use crate::text::{concat_str, decimal, u16_to_decimal};

verus! {

/// A successful answer of the storage service.
#[derive(Debug)]
pub struct CoreClientResponse {
    pub content_type: String,
    pub payload: Vec<u8>,
}

/// How a call to the storage service failed; the texts are those of the
/// failure as the HTTP client reported it, or the body of the answer.
#[derive(Debug)]
pub enum CoreStorageClientError {
    SendError(String),
    PayloadError(String),
    ErrorStatusCode(u16, String),
}

/// Where the records of the storage service are, for a host.
pub struct CoreStorageClient {
    pub base_url: String,
}

/// The base of the storage API on a host.
pub open spec fn storage_base(host: Seq<char>) -> Seq<char> {
    host + "/api/v2/storage"@
}

/// The URL of a record, under a base.
pub open spec fn record_location(base: Seq<char>, r_id: Seq<char>) -> Seq<char> {
    base + "/records/"@ + r_id
}

impl CoreStorageClient {
    /// The client of the storage service on `base_url`.
    pub fn new(base_url: &str) -> (r: CoreStorageClient)
        ensures
            r.base_url@ == storage_base(base_url@),
    {
        CoreStorageClient { base_url: concat_str(base_url, "/api/v2/storage") }
    }

    /// The URL from which a record is fetched.
    pub fn record_url(&self, r_id: &str) -> (r: String)
        ensures
            r@ == record_location(self.base_url@, r_id@),
    {
        let mut r = concat_str(self.base_url.as_str(), "/records/");
        r.append(r_id);
        r
    }
}

/// The text that `String::from_utf8_lossy` makes of some bytes.
pub uninterp spec fn lossy_text(data: Seq<u8>) -> Seq<char>;

/// `String::from_utf8_lossy`, owned. Claims: the result is `lossy_text` of
/// the bytes, and for valid UTF-8 it is the decoded text, as std documents.
/// Left unsaid: which replacement characters stand for invalid sequences.
#[verifier::external_body]
fn utf8_lossy(data: &[u8]) -> (r: String)
    ensures
        r@ == lossy_text(data@),
        valid_utf8(data@) ==> r@ == decode_utf8(data@),
{
    String::from_utf8_lossy(data).into_owned()
}

/// The reason phrase that the HTTP crate knows for a status code.
pub uninterp spec fn status_reason(code: u16) -> Option<Seq<char>>;

/// `StatusCode::from_u16` then `StatusCode::canonical_reason`. Claims: the
/// phrase is `status_reason` of the code. The table of phrases is left
/// unsaid.
#[verifier::external_body]
fn canonical_reason(code: u16) -> (r: Option<&'static str>)
    requires
        100 <= code < 1000,
    ensures
        match r {
            Option::Some(t) => status_reason(code) == Option::Some(t@),
            Option::None => status_reason(code) is None,
        },
{
    match actix_web::http::StatusCode::from_u16(code) {
        Ok(status) => status.canonical_reason(),
        Err(_) => Option::None,
    }
}

/// A status code with its reason phrase, as a status code displays.
pub open spec fn status_text(code: u16) -> Seq<char> {
    decimal(code as nat) + " "@ + match status_reason(code) {
        Option::Some(t) => t,
        Option::None => "<unknown status code>"@,
    }
}

/// How a failure of the client displays.
pub open spec fn client_error_text(e: CoreStorageClientError) -> Seq<char> {
    match e {
        CoreStorageClientError::SendError(_) => "internal core client failure"@,
        CoreStorageClientError::PayloadError(_) => "internal core client failure"@,
        CoreStorageClientError::ErrorStatusCode(c, d) => "error "@ + status_text(c) + ": "@ + d@,
    }
}

/// The error of the service for a failure of the client: a failure of the
/// core storage dependency, its code and description by the kind of failure,
/// its source the failure's text.
pub open spec fn client_error_view(e: CoreStorageClientError) -> ErrorView {
    ErrorView {
        category: ErrorCategory::Dependency(Dependency::CoreStorage),
        code: match e {
            CoreStorageClientError::SendError(_) => ErrorCode::SendRequest,
            CoreStorageClientError::PayloadError(_) => ErrorCode::Payload,
            CoreStorageClientError::ErrorStatusCode(c, _) => ErrorCode::ErrorStatus(c),
        },
        description: match e {
            CoreStorageClientError::ErrorStatusCode(_, d) => d@,
            _ => "communication error"@,
        },
        source: Option::Some(client_error_text(e)),
    }
}

/// A status code that the HTTP client can hold.
pub open spec fn valid_status(e: CoreStorageClientError) -> bool {
    match e {
        CoreStorageClientError::ErrorStatusCode(c, _) => 100 <= c < 1000,
        _ => true,
    }
}

impl CoreStorageClientError {
    /// How the failure displays.
    pub fn to_string(&self) -> (r: String)
        requires
            valid_status(*self),
        ensures
            r@ == client_error_text(*self),
    {
        match self {
            CoreStorageClientError::SendError(_) => String::from_str("internal core client failure"),
            CoreStorageClientError::PayloadError(_) => String::from_str(
                "internal core client failure",
            ),
            CoreStorageClientError::ErrorStatusCode(c, d) => {
                let mut r = String::from_str("error ");
                let code = u16_to_decimal(*c);
                r.append(code.as_str());
                r.append(" ");
                match canonical_reason(*c) {
                    Option::Some(t) => r.append(t),
                    Option::None => r.append("<unknown status code>"),
                }
                r.append(": ");
                r.append(d.as_str());
                r
            },
        }
    }
}

impl WDMSError {
    /// The error of the service for a failure of the storage client.
    pub fn from_client_error(value: CoreStorageClientError) -> (r: WDMSError)
        requires
            valid_status(value),
        ensures
            r@ == client_error_view(value),
    {
        let source = value.to_string();
        let (code, description) = match &value {
            CoreStorageClientError::SendError(_) => (
                ErrorCode::SendRequest,
                String::from_str("communication error"),
            ),
            CoreStorageClientError::PayloadError(_) => (
                ErrorCode::Payload,
                String::from_str("communication error"),
            ),
            CoreStorageClientError::ErrorStatusCode(c, d) => (ErrorCode::ErrorStatus(*c), d.clone()),
        };
        WDMSError {
            category: ErrorCategory::Dependency(Dependency::CoreStorage),
            code,
            description,
            source: Option::Some(source),
        }
    }
}

/// Whether a status is a success (200 to 299).
pub open spec fn is_success(status: u16) -> bool {
    200 <= status < 300
}

/// Classifies an answer of the storage service from its status, content
/// type and body: a body that could not be read is a payload failure; a
/// success status gives the content type and body; any other status is a
/// failure with that status and the body read as text.
pub fn client_response(status: u16, content_type: String, body: Result<Vec<u8>, String>) -> (r: Result<
    CoreClientResponse,
    CoreStorageClientError,
>)
    ensures
        match body {
            Err(e) => r == Err::<CoreClientResponse, CoreStorageClientError>(
                CoreStorageClientError::PayloadError(e),
            ),
            Ok(data) => if is_success(status) {
                r matches Ok(resp) && resp.content_type == content_type && resp.payload@ == data@
            } else {
                r matches Err(CoreStorageClientError::ErrorStatusCode(c, text)) && c == status
                    && text@ == lossy_text(data@)
            },
        },
{
    match body {
        Err(e) => Err(CoreStorageClientError::PayloadError(e)),
        Ok(data) => {
            if 200 <= status && status < 300 {
                Ok(CoreClientResponse { content_type, payload: data })
            } else {
                Err(CoreStorageClientError::ErrorStatusCode(status, utf8_lossy(data.as_slice())))
            }
        },
    }
}

/// Law: the URL of a record on a host is the host, then
/// `/api/v2/storage/records/`, then the record id exactly as given: the id is
/// what follows that prefix, and two ids give the same URL only when they are
/// the same id.
pub proof fn lemma_record_url(host: Seq<char>, r_id: Seq<char>, other_id: Seq<char>)
    ensures
        record_location(storage_base(host), r_id) == host + "/api/v2/storage/records/"@ + r_id,
        ({
            let url = record_location(storage_base(host), r_id);
            let n = (host.len() + "/api/v2/storage/records/"@.len()) as int;
            &&& url.len() == n + r_id.len()
            &&& url.subrange(0, n) == host + "/api/v2/storage/records/"@
            &&& url.subrange(n, url.len() as int) == r_id
        }),
        record_location(storage_base(host), r_id) == record_location(storage_base(host), other_id)
            ==> r_id == other_id,
{
    reveal_strlit("/api/v2/storage");
    reveal_strlit("/records/");
    reveal_strlit("/api/v2/storage/records/");
    let prefix = host + "/api/v2/storage/records/"@;
    assert(storage_base(host) + "/records/"@ =~= prefix);
    let url = record_location(storage_base(host), r_id);
    assert(url =~= prefix + r_id);
    let n = prefix.len() as int;
    assert(url.subrange(0, n) =~= prefix);
    assert(url.subrange(n, url.len() as int) =~= r_id);
    let url2 = record_location(storage_base(host), other_id);
    assert(url2 =~= prefix + other_id);
    if url == url2 {
        assert(url2.subrange(n, url2.len() as int) =~= other_id);
    }
}

/// Law: when the storage service answers with a valid error status (100 to
/// 999), the service's error for it answers with that same status.
pub proof fn lemma_storage_status_forwarded(c: u16, body: String)
    requires
        100 <= c < 1000,
    ensures
        crate::error::error_status(
            client_error_view(CoreStorageClientError::ErrorStatusCode(c, body)).category,
            client_error_view(CoreStorageClientError::ErrorStatusCode(c, body)).code,
        ) == c,
{
    crate::error::lemma_status_forwarded(Dependency::CoreStorage, ErrorCode::ErrorStatus(c), c);
}

} // verus!
