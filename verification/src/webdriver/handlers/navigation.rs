//! Navigation commands. Navigating, going back or forward and refreshing first reset
//! the session's input state.

use vstd::prelude::*;
use crate::webdriver::error::{failed_with, ErrorKind, WebDriverError};
use crate::webdriver::handlers::{call0, call1, runs, ScriptCall};

verus! {

pub struct UrlRequest {
    pub url: String,
}

pub const NAVIGATE_SCRIPT: &'static str = "(url) => { window.location.href = url; return null; }";
pub const BACK_SCRIPT: &'static str = "() => { window.history.back(); return null; }";
pub const FORWARD_SCRIPT: &'static str = "() => { window.history.forward(); return null; }";
pub const REFRESH_SCRIPT: &'static str = "() => { window.location.reload(); return null; }";
pub const TITLE_SCRIPT: &'static str = "() => document.title || ''";
pub const SOURCE_SCRIPT: &'static str = "() => document.documentElement ? document.documentElement.outerHTML : ''";
pub const URL_READ_FAILED_PREFIX: &'static str = "Failed to read URL: ";

pub fn navigate_script(request: UrlRequest) -> (r: ScriptCall)
    ensures
        runs(r, NAVIGATE_SCRIPT@, seq![request.url@]),
{
    call1(NAVIGATE_SCRIPT, request.url)
}

pub fn back_script() -> (r: ScriptCall)
    ensures
        runs(r, BACK_SCRIPT@, Seq::empty()),
{
    call0(BACK_SCRIPT)
}

pub fn forward_script() -> (r: ScriptCall)
    ensures
        runs(r, FORWARD_SCRIPT@, Seq::empty()),
{
    call0(FORWARD_SCRIPT)
}

pub fn refresh_script() -> (r: ScriptCall)
    ensures
        runs(r, REFRESH_SCRIPT@, Seq::empty()),
{
    call0(REFRESH_SCRIPT)
}

pub fn get_title_script() -> (r: ScriptCall)
    ensures
        runs(r, TITLE_SCRIPT@, Seq::empty()),
{
    call0(TITLE_SCRIPT)
}

pub fn get_source_script() -> (r: ScriptCall)
    ensures
        runs(r, SOURCE_SCRIPT@, Seq::empty()),
{
    call0(SOURCE_SCRIPT)
}

/// The error for a webview whose URL cannot be read, with the webview's error text.
pub fn url_read_failed(error: &str) -> (r: WebDriverError)
    ensures
        failed_with(Err::<(), WebDriverError>(r), ErrorKind::UnknownError, URL_READ_FAILED_PREFIX@ + error@),
{
    let mut message = String::from_str(URL_READ_FAILED_PREFIX);
    message.append(error);
    WebDriverError::new(ErrorKind::UnknownError, message)
}

} // verus!
