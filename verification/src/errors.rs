//! The error taxonomy shared by every operation of the client.

use vstd::prelude::*;
use vstd::string::StringExecFns;
use crate::json::JsonDocument;
use crate::json::JsonDocumentView;

verus! {

/// A structured rejection sent by the service.
#[derive(Debug, Clone)]
pub struct MeilisearchError {
    /// Stable, machine-readable code of the rejection.
    pub error_code: String,
    /// Human-readable explanation.
    pub error_message: String,
    /// The URL the rejected request was sent to.
    pub url: String,
}

/// A response whose status signals trouble but whose body is not a
/// structured rejection.
#[derive(Debug, Clone)]
pub struct MeilisearchCommunicationError {
    pub status_code: u16,
    pub message: Option<String>,
    pub url: String,
}

/// Everything that can go wrong in a call.
#[derive(Debug, Clone)]
pub enum Error {
    /// The service rejected the request with a structured payload.
    Meilisearch(MeilisearchError),
    /// Unexpected status together with an unrecognizable body.
    MeilisearchCommunication(MeilisearchCommunicationError),
    /// The body could not be read as the expected shape.
    ParseError(String),
    /// A task did not reach a terminal status in the allotted time.
    Timeout,
    /// The request could not be built (bad URL, bad header value, ...).
    InvalidRequest,
    /// The round trip did not yield a response.
    HttpError(String),
    /// The query parameters could not be encoded.
    Yaup(String),
}

/// Mathematical counterpart of [`Error`].
pub enum ErrorView {
    Meilisearch { error_code: Seq<char>, error_message: Seq<char>, url: Seq<char> },
    MeilisearchCommunication { status_code: u16, message: Option<Seq<char>>, url: Seq<char> },
    ParseError(Seq<char>),
    Timeout,
    InvalidRequest,
    HttpError(Seq<char>),
    Yaup(Seq<char>),
}

impl View for Error {
    type V = ErrorView;

    open spec fn view(&self) -> ErrorView {
        match self {
            Error::Meilisearch(e) => ErrorView::Meilisearch {
                error_code: e.error_code@,
                error_message: e.error_message@,
                url: e.url@,
            },
            Error::MeilisearchCommunication(e) => ErrorView::MeilisearchCommunication {
                status_code: e.status_code,
                message: match e.message {
                    Some(m) => Some(m@),
                    None => None,
                },
                url: e.url@,
            },
            Error::ParseError(m) => ErrorView::ParseError(m@),
            Error::Timeout => ErrorView::Timeout,
            Error::InvalidRequest => ErrorView::InvalidRequest,
            Error::HttpError(m) => ErrorView::HttpError(m@),
            Error::Yaup(m) => ErrorView::Yaup(m@),
        }
    }
}

/// The rejection a document spells out for a request sent to `url`: the
/// root must be an object whose members `errorCode` and `errorMessage` are
/// both strings.
pub open spec fn service_error(document: JsonDocumentView, url: Seq<char>) -> Option<ErrorView> {
    match (document.text_of("errorCode"@), document.text_of("errorMessage"@)) {
        (Some(error_code), Some(error_message)) => Some(
            ErrorView::Meilisearch { error_code, error_message, url },
        ),
        _ => None,
    }
}

impl MeilisearchError {
    /// This rejection as an [`ErrorView`].
    pub open spec fn as_error(&self) -> ErrorView {
        ErrorView::Meilisearch {
            error_code: self.error_code@,
            error_message: self.error_message@,
            url: self.url@,
        }
    }

    /// Reads a structured rejection out of a response body.
    pub fn from_document(document: &JsonDocument, url: &str) -> (r: Option<MeilisearchError>)
        ensures
            match r {
                Some(e) => service_error(document@, url@) == Some(e.as_error()),
                None => service_error(document@, url@) is None,
            },
    {
        let error_code = document.text_of("errorCode");
        let error_message = document.text_of("errorMessage");
        match (error_code, error_message) {
            (Some(error_code), Some(error_message)) => Some(
                MeilisearchError { error_code, error_message, url: String::from_str(url) },
            ),
            _ => None,
        }
    }
}

} // verus!
