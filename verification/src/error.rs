//! Error types for profile parsing and policy enforcement, with the text
//! each error is displayed as.
use vstd::prelude::*;
use crate::text::{chars_of, chars_of_string, concat, decimal, decimal_of, string_of};

verus! {

/// Errors that can occur during policy parsing.
#[derive(Debug)]
pub enum ParseError {
    /// Unknown directive in profile.
    UnknownDirective(String),
    /// Invalid directive format or arguments.
    InvalidFormat(String),
    /// Include file not found.
    IncludeNotFound(String),
    /// Maximum include depth exceeded.
    MaxIncludeDepth(usize),
    /// I/O error while reading profile (its message).
    Io(String),
}

/// Errors that can occur during policy enforcement.
#[derive(Debug)]
pub enum PolicyViolation {
    /// File is blacklisted.
    FileBlacklisted(String),
    /// File is not whitelisted in restrictive mode.
    FileNotWhitelisted(String),
    /// File is read-only.
    FileReadOnly(String),
    /// Execution is not allowed from this directory.
    NoExec(String),
    /// Command is blocked.
    CommandBlocked(String),
    /// Path canonicalization failed (path, and the I/O error's message).
    CanonicalizationFailed(String, String),
}

/// The mathematical view of a parse error.
pub enum ParseErrorView {
    /// Unknown directive.
    UnknownDirective(Seq<char>),
    /// Invalid directive format or arguments.
    InvalidFormat(Seq<char>),
    /// Include file not found.
    IncludeNotFound(Seq<char>),
    /// Maximum include depth exceeded.
    MaxIncludeDepth(usize),
    /// I/O error.
    Io(Seq<char>),
}

impl View for ParseError {
    type V = ParseErrorView;

    open spec fn view(&self) -> ParseErrorView {
        match self {
            ParseError::UnknownDirective(s) => ParseErrorView::UnknownDirective(s@),
            ParseError::InvalidFormat(s) => ParseErrorView::InvalidFormat(s@),
            ParseError::IncludeNotFound(p) => ParseErrorView::IncludeNotFound(p@),
            ParseError::MaxIncludeDepth(n) => ParseErrorView::MaxIncludeDepth(*n),
            ParseError::Io(m) => ParseErrorView::Io(m@),
        }
    }
}

/// The text a parse error is displayed as.
pub open spec fn parse_error_text(e: ParseErrorView) -> Seq<char> {
    match e {
        ParseErrorView::UnknownDirective(s) => "Unknown directive: "@ + s,
        ParseErrorView::InvalidFormat(s) => "Invalid directive format: "@ + s,
        ParseErrorView::IncludeNotFound(p) => "Include file not found: "@ + p,
        ParseErrorView::MaxIncludeDepth(n) => "Maximum include depth ("@ + decimal(n as nat)
            + ") exceeded"@,
        ParseErrorView::Io(m) => "I/O error: "@ + m,
    }
}

/// The text a policy violation is displayed as.
pub open spec fn violation_text(v: PolicyViolation) -> Seq<char> {
    match v {
        PolicyViolation::FileBlacklisted(s) => "File access denied (blacklisted): "@ + s@,
        PolicyViolation::FileNotWhitelisted(s) => "File access denied (not whitelisted): "@
            + s@,
        PolicyViolation::FileReadOnly(s) => "File is read-only: "@ + s@,
        PolicyViolation::NoExec(s) => "Execution denied from directory (noexec): "@ + s@,
        PolicyViolation::CommandBlocked(s) => "Command execution denied (blacklisted): "@ + s@,
        PolicyViolation::CanonicalizationFailed(p, m) => "Failed to canonicalize path "@ + p@
            + ": "@ + m@,
    }
}

fn prefixed(prefix: &str, s: &String) -> (r: Vec<char>)
    ensures
        r@ == prefix@ + s@,
{
    concat(&chars_of(prefix), &chars_of_string(s))
}

impl ParseError {
    /// The text this error is displayed as.
    pub fn message(&self) -> (r: String)
        ensures
            r@ == parse_error_text(self@),
    {
        let v = match self {
            ParseError::UnknownDirective(s) => prefixed("Unknown directive: ", s),
            ParseError::InvalidFormat(s) => prefixed("Invalid directive format: ", s),
            ParseError::IncludeNotFound(p) => prefixed("Include file not found: ", p),
            ParseError::MaxIncludeDepth(n) => {
                let a = concat(&chars_of("Maximum include depth ("), &decimal_of(*n));
                concat(&a, &chars_of(") exceeded"))
            },
            ParseError::Io(m) => prefixed("I/O error: ", m),
        };
        string_of(&v)
    }
}

impl PolicyViolation {
    /// The text this violation is displayed as.
    pub fn message(&self) -> (r: String)
        ensures
            r@ == violation_text(*self),
    {
        let v = match self {
            PolicyViolation::FileBlacklisted(s) => prefixed(
                "File access denied (blacklisted): ",
                s,
            ),
            PolicyViolation::FileNotWhitelisted(s) => prefixed(
                "File access denied (not whitelisted): ",
                s,
            ),
            PolicyViolation::FileReadOnly(s) => prefixed("File is read-only: ", s),
            PolicyViolation::NoExec(s) => prefixed("Execution denied from directory (noexec): ", s),
            PolicyViolation::CommandBlocked(s) => prefixed(
                "Command execution denied (blacklisted): ",
                s,
            ),
            PolicyViolation::CanonicalizationFailed(p, m) => {
                let a = prefixed("Failed to canonicalize path ", p);
                let b = concat(&a, &chars_of(": "));
                concat(&b, &chars_of_string(m))
            },
        };
        string_of(&v)
    }
}

} // verus!
