//! Errors that a WebDriver command answers with.

use vstd::prelude::*;

verus! {

/// The WebDriver error kinds that the command handlers produce.
#[derive(Clone, Copy, Debug, PartialEq, Eq, Structural)]
pub enum ErrorKind {
    InvalidSessionId,
    SessionNotCreated,
    NoSuchWindow,
    NoSuchElement,
    NoSuchShadowRoot,
    NoSuchCookie,
    JavascriptError,
    Timeout,
    UnknownError,
}

/// The HTTP status and W3C WebDriver error code of an error kind.
pub open spec fn kind_wire(kind: ErrorKind) -> (u16, Seq<char>) {
    match kind {
        ErrorKind::InvalidSessionId => (404, "invalid session id"@),
        ErrorKind::SessionNotCreated => (500, "session not created"@),
        ErrorKind::NoSuchWindow => (404, "no such window"@),
        ErrorKind::NoSuchElement => (404, "no such element"@),
        ErrorKind::NoSuchShadowRoot => (404, "no such shadow root"@),
        ErrorKind::NoSuchCookie => (404, "no such cookie"@),
        ErrorKind::JavascriptError => (500, "javascript error"@),
        ErrorKind::Timeout => (500, "timeout"@),
        ErrorKind::UnknownError => (500, "unknown error"@),
    }
}

impl ErrorKind {
    /// The HTTP status an error of this kind is answered with.
    pub fn http_status(&self) -> (r: u16)
        ensures
            r == kind_wire(*self).0,
    {
        match self {
            ErrorKind::InvalidSessionId => 404,
            ErrorKind::SessionNotCreated => 500,
            ErrorKind::NoSuchWindow => 404,
            ErrorKind::NoSuchElement => 404,
            ErrorKind::NoSuchShadowRoot => 404,
            ErrorKind::NoSuchCookie => 404,
            ErrorKind::JavascriptError => 500,
            ErrorKind::Timeout => 500,
            ErrorKind::UnknownError => 500,
        }
    }

    /// The error code that the response body names.
    pub fn error_code(&self) -> (r: &'static str)
        ensures
            r@ == kind_wire(*self).1,
    {
        match self {
            ErrorKind::InvalidSessionId => "invalid session id",
            ErrorKind::SessionNotCreated => "session not created",
            ErrorKind::NoSuchWindow => "no such window",
            ErrorKind::NoSuchElement => "no such element",
            ErrorKind::NoSuchShadowRoot => "no such shadow root",
            ErrorKind::NoSuchCookie => "no such cookie",
            ErrorKind::JavascriptError => "javascript error",
            ErrorKind::Timeout => "timeout",
            ErrorKind::UnknownError => "unknown error",
        }
    }
}

/// A number for each error kind, to tell kinds apart in statements.
pub open spec fn kind_index(kind: ErrorKind) -> int {
    match kind {
        ErrorKind::InvalidSessionId => 0,
        ErrorKind::SessionNotCreated => 1,
        ErrorKind::NoSuchWindow => 2,
        ErrorKind::NoSuchElement => 3,
        ErrorKind::NoSuchShadowRoot => 4,
        ErrorKind::NoSuchCookie => 5,
        ErrorKind::JavascriptError => 6,
        ErrorKind::Timeout => 7,
        ErrorKind::UnknownError => 8,
    }
}

/// Each error kind is answered with its W3C WebDriver error code and HTTP status:
/// "invalid session id" 404, "session not created" 500, "no such window" 404,
/// "no such element" 404, "no such shadow root" 404, "no such cookie" 404,
/// "javascript error" 500, "timeout" 500, "unknown error" 500; and no two kinds share
/// a code, so a client can always tell which error it got.
pub proof fn lemma_error_codes_are_w3c(k1: ErrorKind, k2: ErrorKind)
    ensures
        kind_wire(ErrorKind::InvalidSessionId) == (404u16, "invalid session id"@),
        kind_wire(ErrorKind::SessionNotCreated) == (500u16, "session not created"@),
        kind_wire(ErrorKind::NoSuchWindow) == (404u16, "no such window"@),
        kind_wire(ErrorKind::NoSuchElement) == (404u16, "no such element"@),
        kind_wire(ErrorKind::NoSuchShadowRoot) == (404u16, "no such shadow root"@),
        kind_wire(ErrorKind::NoSuchCookie) == (404u16, "no such cookie"@),
        kind_wire(ErrorKind::JavascriptError) == (500u16, "javascript error"@),
        kind_wire(ErrorKind::Timeout) == (500u16, "timeout"@),
        kind_wire(ErrorKind::UnknownError) == (500u16, "unknown error"@),
        kind_index(k1) != kind_index(k2) ==> kind_wire(k1).1 != kind_wire(k2).1,
{
    reveal_strlit("invalid session id");
    reveal_strlit("session not created");
    reveal_strlit("no such window");
    reveal_strlit("no such element");
    reveal_strlit("no such shadow root");
    reveal_strlit("no such cookie");
    reveal_strlit("javascript error");
    reveal_strlit("timeout");
    reveal_strlit("unknown error");
    let a = kind_wire(k1).1;
    let b = kind_wire(k2).1;
    if kind_index(k1) != kind_index(k2) && a == b {
        assert(a.len() == b.len());
        assert(a[3] == b[3]);
        assert(a[8] == b[8]);
        assert(a[9] == b[9]);
    }
}

/// A WebDriver error: its kind, message and optional JavaScript stack trace.
#[derive(Debug)]
pub struct WebDriverError {
    pub kind: ErrorKind,
    pub message: String,
    pub stacktrace: Option<String>,
}

impl WebDriverError {
    /// An error of `kind` with `message` and no stack trace.
    pub fn new(kind: ErrorKind, message: String) -> (r: WebDriverError)
        ensures
            r.kind == kind,
            r.message@ == message@,
            r.stacktrace is None,
    {
        WebDriverError { kind, message, stacktrace: None }
    }

    /// An error of `kind` whose message is the text `message`.
    pub fn from_text(kind: ErrorKind, message: &str) -> (r: WebDriverError)
        ensures
            r.kind == kind,
            r.message@ == message@,
            r.stacktrace is None,
    {
        WebDriverError { kind, message: String::from_str(message), stacktrace: None }
    }

    /// A JavaScript error with its message and the stack trace the page reported.
    pub fn javascript_error(message: String, stacktrace: Option<String>) -> (r: WebDriverError)
        ensures
            r.kind == ErrorKind::JavascriptError,
            r.message@ == message@,
            r.stacktrace == stacktrace,
    {
        WebDriverError { kind: ErrorKind::JavascriptError, message, stacktrace }
    }
}

/// `r` is an error of `kind` with `message` and no stack trace.
pub open spec fn failed_with<T>(r: Result<T, WebDriverError>, kind: ErrorKind, message: Seq<char>) -> bool {
    r matches Err(e) && e.kind == kind && e.message@ == message && e.stacktrace is None
}

} // verus!
