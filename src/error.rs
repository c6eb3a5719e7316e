//! The structured errors that operations report.
use vstd::prelude::*;
use vstd::string::StringExecFns;
use crate::json::Json;

verus! {

/// What a caller can do about an error: correct its input, fix its
/// credential, or nothing (the fault lies elsewhere).
#[derive(Debug, Clone, Copy, PartialEq, Eq, Structural)]
pub enum ErrorKind {
    InvalidParams,
    InvalidRequest,
    Internal,
}

/// An error with its kind, a fixed human-readable message and an optional
/// diagnostic value.
#[derive(Debug)]
pub struct ToolError {
    pub kind: ErrorKind,
    pub message: String,
    pub detail: Option<Json>,
}

impl ToolError {
    pub fn new(kind: ErrorKind, message: &str, detail: Option<Json>) -> (r: ToolError)
        ensures
            r.kind == kind,
            r.message@ == message@,
            r.detail == detail,
    {
        ToolError { kind, message: String::from_str(message), detail }
    }

    /// An error whose diagnostic is a piece of text.
    pub fn with_text(kind: ErrorKind, message: &str, text: String) -> (r: ToolError)
        ensures
            r.kind == kind,
            r.message@ == message@,
            r.detail matches Some(Json::Str(t)) && t@ == text@,
    {
        ToolError { kind, message: String::from_str(message), detail: Some(Json::Str(text)) }
    }
}

/// A configuration value that cannot be used.
#[derive(Debug)]
pub struct ConfigError {
    pub message: String,
}

} // verus!
