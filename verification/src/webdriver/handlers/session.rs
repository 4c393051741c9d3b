//! Session commands.

use vstd::prelude::*;
use crate::webdriver::error::{failed_with, ErrorKind, WebDriverError};
use crate::webdriver::handlers::Reply;

verus! {

pub struct NewSessionRequest {
    pub capabilities: Option<serde_json::Value>,
}

pub const WEBVIEW_NOT_AVAILABLE_PREFIX: &'static str = "Webview not available: ";
pub const INVALID_SESSION_PREFIX: &'static str = "Invalid session id: ";

/// The window a new session starts in: the initial window when there is one, else
/// "session not created" naming the preferred webview label.
pub fn initial_window_for_session(initial_window: Option<String>, preferred_label: &str) -> (r: Result<String, WebDriverError>)
    ensures
        match initial_window {
            Some(w) => r matches Ok(s) && s@ == w@,
            None => failed_with(r, ErrorKind::SessionNotCreated, WEBVIEW_NOT_AVAILABLE_PREFIX@ + preferred_label@),
        },
{
    match initial_window {
        Some(w) => Ok(w),
        None => {
            let mut message = String::from_str(WEBVIEW_NOT_AVAILABLE_PREFIX);
            message.append(preferred_label);
            Err(WebDriverError::new(ErrorKind::SessionNotCreated, message))
        },
    }
}

pub const BROWSER_NAME: &'static str = "bitfun";

/// The reply to "new session": the session id and the capabilities that do not depend
/// on the platform (browser name, insecure certificates and window rectangles accepted,
/// screenshots taken, embedded, the webview label and the requested capabilities).
pub struct NewSessionReply {
    pub session_id: String,
    pub browser_name: String,
    pub accept_insecure_certs: bool,
    pub set_window_rect: bool,
    pub takes_screenshot: bool,
    pub embedded: bool,
    pub webview_label: String,
    pub always_match: Option<serde_json::Value>,
}

pub fn new_session_reply(session_id: String, webview_label: String, request: NewSessionRequest) -> (r: NewSessionReply)
    ensures
        r.session_id@ == session_id@,
        r.browser_name@ == BROWSER_NAME@,
        r.accept_insecure_certs,
        r.set_window_rect,
        r.takes_screenshot,
        r.embedded,
        r.webview_label@ == webview_label@,
        r.always_match == request.capabilities,
{
    NewSessionReply {
        session_id,
        browser_name: String::from_str(BROWSER_NAME),
        accept_insecure_certs: true,
        set_window_rect: true,
        takes_screenshot: true,
        embedded: true,
        webview_label,
        always_match: request.capabilities,
    }
}

/// The error for a session id that names no session.
pub fn invalid_session_id(session_id: &str) -> (r: WebDriverError)
    ensures
        failed_with(Err::<(), WebDriverError>(r), ErrorKind::InvalidSessionId, INVALID_SESSION_PREFIX@ + session_id@),
{
    let mut message = String::from_str(INVALID_SESSION_PREFIX);
    message.append(session_id);
    WebDriverError::new(ErrorKind::InvalidSessionId, message)
}

/// The reply to "delete session": `null` when a session was removed, else "invalid
/// session id".
pub fn delete_reply(removed: bool, session_id: &str) -> (r: Result<Reply, WebDriverError>)
    ensures
        removed ==> r == Ok::<Reply, WebDriverError>(Reply::Null),
        !removed ==> failed_with(r, ErrorKind::InvalidSessionId, INVALID_SESSION_PREFIX@ + session_id@),
{
    if removed {
        Ok(Reply::Null)
    } else {
        Err(invalid_session_id(session_id))
    }
}

} // verus!
