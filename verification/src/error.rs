//! The crate's error type and the text each error reads as.
use vstd::prelude::*;
use crate::text::{concat2, concat3, decimal, decimal_string};

verus! {

/// Everything that can go wrong in the agent.
///
/// Errors that start outside the library (an I/O failure, a JSON syntax
/// error) arrive as the text of the underlying error.
#[derive(Debug)]
pub enum RagentError {
    EnvVarMissing(String),
    UnsupportedLlm(String),
    ApiRequest(String),
    ApiStatus { status: u16, body: String },
    ApiParse { llm: String, e: String },
    ClientBuild(String),
    EmptyResponse,
    Io(String),
    Json(String),
    PathEscape(String),
    PathNotAFile(String),
    PathNotExist(String),
    TextNotFound(String),
    /// A file could not be read; holds the text of the reason.
    FileRead(String),
}

/// An error as the specifications see it.
pub enum ErrorView {
    EnvVarMissing(Seq<char>),
    UnsupportedLlm(Seq<char>),
    ApiRequest(Seq<char>),
    ApiStatus { status: u16, body: Seq<char> },
    ApiParse { llm: Seq<char>, e: Seq<char> },
    ClientBuild(Seq<char>),
    EmptyResponse,
    Io(Seq<char>),
    Json(Seq<char>),
    PathEscape(Seq<char>),
    PathNotAFile(Seq<char>),
    PathNotExist(Seq<char>),
    TextNotFound(Seq<char>),
    FileRead(Seq<char>),
}

impl View for RagentError {
    type V = ErrorView;

    open spec fn view(&self) -> ErrorView {
        match self {
            RagentError::EnvVarMissing(s) => ErrorView::EnvVarMissing(s@),
            RagentError::UnsupportedLlm(s) => ErrorView::UnsupportedLlm(s@),
            RagentError::ApiRequest(s) => ErrorView::ApiRequest(s@),
            RagentError::ApiStatus { status, body } => ErrorView::ApiStatus {
                status: *status,
                body: body@,
            },
            RagentError::ApiParse { llm, e } => ErrorView::ApiParse { llm: llm@, e: e@ },
            RagentError::ClientBuild(s) => ErrorView::ClientBuild(s@),
            RagentError::EmptyResponse => ErrorView::EmptyResponse,
            RagentError::Io(s) => ErrorView::Io(s@),
            RagentError::Json(s) => ErrorView::Json(s@),
            RagentError::PathEscape(s) => ErrorView::PathEscape(s@),
            RagentError::PathNotAFile(s) => ErrorView::PathNotAFile(s@),
            RagentError::PathNotExist(s) => ErrorView::PathNotExist(s@),
            RagentError::TextNotFound(s) => ErrorView::TextNotFound(s@),
            RagentError::FileRead(s) => ErrorView::FileRead(s@),
        }
    }
}

/// The text an error reads as.
pub open spec fn error_message(e: ErrorView) -> Seq<char> {
    match e {
        ErrorView::EnvVarMissing(s) => "Environment variable `"@ + s
            + "` not set. Please set it in your .env file."@,
        ErrorView::UnsupportedLlm(s) => "Unsupported LLM type: "@ + s,
        ErrorView::ApiRequest(s) => "API request failed: "@ + s,
        ErrorView::ApiStatus { status, body } => "API returned error status "@ + decimal(
            status as nat,
        ) + ": "@ + body,
        ErrorView::ApiParse { llm, e } => "Failed to parse "@ + llm + " API response: "@ + e,
        ErrorView::ClientBuild(s) => s,
        ErrorView::EmptyResponse => "No response message from API (empty choices)"@,
        ErrorView::Io(s) => "IO error: "@ + s,
        ErrorView::Json(s) => "JSON error: "@ + s,
        ErrorView::PathEscape(s) => "Path escapes workspace: "@ + s,
        ErrorView::PathNotAFile(s) => "Path is not a file: "@ + s,
        ErrorView::PathNotExist(s) => "Path not exist: "@ + s,
        ErrorView::TextNotFound(s) => "Text not found at path: "@ + s,
        ErrorView::FileRead(s) => "Error: "@ + s,
    }
}

impl RagentError {
    /// The text this error reads as.
    pub fn message(&self) -> (r: String)
        ensures
            r@ == error_message(self@),
    {
        match self {
            RagentError::EnvVarMissing(s) => concat3(
                "Environment variable `",
                s.as_str(),
                "` not set. Please set it in your .env file.",
            ),
            RagentError::UnsupportedLlm(s) => concat2("Unsupported LLM type: ", s.as_str()),
            RagentError::ApiRequest(s) => concat2("API request failed: ", s.as_str()),
            RagentError::ApiStatus { status, body } => {
                let code = decimal_string(*status as u64);
                let head = concat3("API returned error status ", code.as_str(), ": ");
                concat2(head.as_str(), body.as_str())
            },
            RagentError::ApiParse { llm, e } => {
                let head = concat3("Failed to parse ", llm.as_str(), " API response: ");
                concat2(head.as_str(), e.as_str())
            },
            RagentError::ClientBuild(s) => s.clone(),
            RagentError::EmptyResponse => String::from_str(
                "No response message from API (empty choices)",
            ),
            RagentError::Io(s) => concat2("IO error: ", s.as_str()),
            RagentError::Json(s) => concat2("JSON error: ", s.as_str()),
            RagentError::PathEscape(s) => concat2("Path escapes workspace: ", s.as_str()),
            RagentError::PathNotAFile(s) => concat2("Path is not a file: ", s.as_str()),
            RagentError::PathNotExist(s) => concat2("Path not exist: ", s.as_str()),
            RagentError::TextNotFound(s) => concat2("Text not found at path: ", s.as_str()),
            RagentError::FileRead(s) => concat2("Error: ", s.as_str()),
        }
    }
}

} // verus!
