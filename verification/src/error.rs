//! One error type for the whole service: a category, a code and a
//! description, and how each becomes an HTTP status.
use vstd::prelude::*;
use crate::text::concat_str;

verus! {

/// What went wrong.
#[derive(Debug, Clone, Copy, PartialEq, Eq, PartialOrd, Ord, Hash, Structural)]
pub enum ErrorCode {
    /// record related
    Parsing,
    UnknownKind,
    ValidationFailed,
    /// from dependencies, fail to properly call
    SendRequest,
    Payload,
    Connect,
    Ssl,
    /// from dependencies, successfuly called by returned status code error
    ErrorStatus(u16),
}

/// The short text of each code.
pub open spec fn code_description(c: ErrorCode) -> Seq<char> {
    match c {
        ErrorCode::Parsing => "fail to parse"@,
        ErrorCode::UnknownKind => "kind is not unknown"@,
        ErrorCode::ValidationFailed => "validation failed"@,
        ErrorCode::SendRequest => "dependency failure"@,
        ErrorCode::Payload => "dependency failure"@,
        ErrorCode::Connect => "dependency failure: cannot connect"@,
        ErrorCode::Ssl => "dependency failure"@,
        ErrorCode::ErrorStatus(_) => "dependency error"@,
    }
}

impl ErrorCode {
    /// The short text of the code, which is also how it displays.
    pub fn description(&self) -> (r: &'static str)
        ensures
            r@ == code_description(*self),
    {
        match self {
            ErrorCode::Parsing => "fail to parse",
            ErrorCode::UnknownKind => "kind is not unknown",
            ErrorCode::ValidationFailed => "validation failed",
            ErrorCode::SendRequest => "dependency failure",
            ErrorCode::Payload => "dependency failure",
            ErrorCode::Connect => "dependency failure: cannot connect",
            ErrorCode::Ssl => "dependency failure",
            ErrorCode::ErrorStatus(_) => "dependency error",
        }
    }

    /// How the code displays: its description.
    pub fn to_string(&self) -> (r: String)
        ensures
            r@ == code_description(*self),
    {
        String::from_str(self.description())
    }
}

/// A service that this one depends on.
#[derive(Debug, Clone, Copy, PartialEq, Eq, PartialOrd, Ord, Hash, Structural)]
pub enum Dependency {
    CoreStorage,
    Unknown,
}

/// How a dependency displays.
pub open spec fn dependency_text(d: Dependency) -> Seq<char> {
    match d {
        Dependency::CoreStorage => "core storage"@,
        Dependency::Unknown => "N/A"@,
    }
}

impl Dependency {
    /// How the dependency displays.
    pub fn to_string(&self) -> (r: String)
        ensures
            r@ == dependency_text(*self),
    {
        match self {
            Dependency::CoreStorage => String::from_str("core storage"),
            Dependency::Unknown => String::from_str("N/A"),
        }
    }
}

/// Whether the record or a dependency is at fault.
#[derive(Debug, Clone, Copy, PartialEq, Eq, PartialOrd, Ord, Hash, Structural)]
pub enum ErrorCategory {
    Record,
    Dependency(Dependency),
}

/// An error of the service: category, code, description, and the text of the
/// error it came from, if any.
#[derive(Debug)]
pub struct WDMSError {
    pub category: ErrorCategory,
    pub code: ErrorCode,
    pub description: String,
    pub source: Option<String>,
}

/// The value of an error, its texts as character sequences.
pub struct ErrorView {
    pub category: ErrorCategory,
    pub code: ErrorCode,
    pub description: Seq<char>,
    pub source: Option<Seq<char>>,
}

impl View for WDMSError {
    type V = ErrorView;

    open spec fn view(&self) -> ErrorView {
        ErrorView {
            category: self.category,
            code: self.code,
            description: self.description@,
            source: match self.source {
                Option::Some(s) => Option::Some(s@),
                Option::None => Option::None,
            },
        }
    }
}

/// An error of the record with the given code and description, and no source.
pub open spec fn record_error(code: ErrorCode, description: Seq<char>) -> ErrorView {
    ErrorView { category: ErrorCategory::Record, code, description, source: Option::None }
}

/// How an error displays.
pub open spec fn error_text(category: ErrorCategory, code: ErrorCode, description: Seq<char>) -> Seq<char> {
    match category {
        ErrorCategory::Record => "Error on the record, "@ + code_description(code) + ": "@
            + description,
        ErrorCategory::Dependency(d) => dependency_text(d) + " error: "@ + description,
    }
}

/// The HTTP status of an error: 422 for an error of the record; for a
/// dependency that answered with an error status, that status when it is a
/// valid one (100 to 999); 500 otherwise.
pub open spec fn error_status(category: ErrorCategory, code: ErrorCode) -> u16 {
    match category {
        ErrorCategory::Record => 422,
        ErrorCategory::Dependency(_) => match code {
            ErrorCode::ErrorStatus(c) => if 100 <= c && c < 1000 {
                c
            } else {
                500
            },
            _ => 500,
        },
    }
}

impl WDMSError {
    /// An error of the record with the given code.
    pub fn from_record(code: ErrorCode, description: String, source: Option<String>) -> (r: Self)
        ensures
            r.category == ErrorCategory::Record,
            r.code == code,
            r.description == description,
            r.source == source,
    {
        WDMSError { category: ErrorCategory::Record, code, description, source }
    }

    /// An error of the record that failed validation.
    pub fn from_validation(description: String, source: Option<String>) -> (r: Self)
        ensures
            r.category == ErrorCategory::Record,
            r.code == ErrorCode::ValidationFailed,
            r.description == description,
            r.source == source,
    {
        WDMSError {
            category: ErrorCategory::Record,
            code: ErrorCode::ValidationFailed,
            description,
            source,
        }
    }

    /// A document that could not be read as JSON: a parsing error of the
    /// record whose description and source are the reader's message.
    pub fn from_json_error(message: String) -> (r: Self)
        ensures
            r.category == ErrorCategory::Record,
            r.code == ErrorCode::Parsing,
            r.description == message,
            r.source == Option::Some(message),
    {
        let description = message.clone();
        WDMSError::from_record(ErrorCode::Parsing, description, Option::Some(message))
    }

    /// How the error displays: `Error on the record, <code>: <description>`
    /// or `<dependency> error: <description>`.
    pub fn to_string(&self) -> (r: String)
        ensures
            r@ == error_text(self.category, self.code, self.description@),
    {
        match self.category {
            ErrorCategory::Record => {
                let mut r = String::from_str("Error on the record, ");
                r.append(self.code.description());
                r.append(": ");
                r.append(self.description.as_str());
                r
            },
            ErrorCategory::Dependency(d) => {
                let name = d.to_string();
                let mut r = concat_str(name.as_str(), " error: ");
                r.append(self.description.as_str());
                r
            },
        }
    }

    /// The HTTP status that answers this error.
    pub fn status_code(&self) -> (r: u16)
        ensures
            r == error_status(self.category, self.code),
    {
        match self.category {
            ErrorCategory::Record => 422,
            ErrorCategory::Dependency(_) => match self.code {
                ErrorCode::ErrorStatus(c) => {
                    if 100 <= c && c < 1000 {
                        c
                    } else {
                        500
                    }
                },
                _ => 500,
            },
        }
    }
}

/// Law: an error of the record answers 422, whatever its code; an error of a
/// dependency that answered with a valid status (100 to 999) answers with
/// that very status, whatever the dependency and the status (client or server
/// error alike); any other error of a dependency answers 500.
pub proof fn lemma_status_forwarded(d: Dependency, code: ErrorCode, c: u16)
    ensures
        error_status(ErrorCategory::Record, code) == 422,
        100 <= c < 1000 ==> error_status(ErrorCategory::Dependency(d), ErrorCode::ErrorStatus(c)) == c,
        !(100 <= c < 1000) ==> error_status(ErrorCategory::Dependency(d), ErrorCode::ErrorStatus(c))
            == 500,
        !(code is ErrorStatus) ==> error_status(ErrorCategory::Dependency(d), code) == 500,
{
}

} // verus!
