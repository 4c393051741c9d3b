//! Cookie commands.

use vstd::prelude::*;
use crate::json::{json_is_null, value_is_null};
use crate::webdriver::error::{failed_with, ErrorKind, WebDriverError};
use crate::webdriver::handlers::{call0, call1, runs, Reply, ScriptArg, ScriptCall};

verus! {

#[derive(Clone, Debug)]
pub struct Cookie {
    pub name: String,
    pub value: String,
    pub path: Option<String>,
    pub domain: Option<String>,
    pub secure: bool,
    pub http_only: bool,
    pub expiry: Option<u64>,
    pub same_site: Option<String>,
}

pub struct AddCookieRequest {
    pub cookie: Cookie,
}

pub const GET_ALL_COOKIES_SCRIPT: &'static str = "() => window.__bitfunWd.getAllCookies()";
pub const GET_COOKIE_SCRIPT: &'static str = "(name) => window.__bitfunWd.getCookie(name)";
pub const ADD_COOKIE_SCRIPT: &'static str = "(cookie) => window.__bitfunWd.addCookie(cookie)";
pub const DELETE_COOKIE_SCRIPT: &'static str = "(name) => window.__bitfunWd.deleteCookie(name)";
pub const DELETE_ALL_COOKIES_SCRIPT: &'static str = "() => window.__bitfunWd.deleteAllCookies()";
pub const COOKIE_NOT_FOUND_PREFIX: &'static str = "Cookie '";
pub const COOKIE_NOT_FOUND_SUFFIX: &'static str = "' not found";

pub fn get_all_script() -> (r: ScriptCall)
    ensures
        runs(r, GET_ALL_COOKIES_SCRIPT@, Seq::empty()),
{
    call0(GET_ALL_COOKIES_SCRIPT)
}

pub fn get_script(name: String) -> (r: ScriptCall)
    ensures
        runs(r, GET_COOKIE_SCRIPT@, seq![name@]),
{
    call1(GET_COOKIE_SCRIPT, name)
}

/// The reply to "get cookie": the cookie the page found, or "no such cookie" with the
/// cookie's name when the page returned nothing or `null`.
pub fn get_reply(name: &str, cookie: Option<serde_json::Value>) -> (r: Result<Reply, WebDriverError>)
    ensures
        match cookie {
            Some(v) if !json_is_null(v) => r == Ok::<Reply, WebDriverError>(Reply::Value(Some(v))),
            _ => failed_with(r, ErrorKind::NoSuchCookie, COOKIE_NOT_FOUND_PREFIX@ + name@ + COOKIE_NOT_FOUND_SUFFIX@),
        },
{
    match cookie {
        Some(v) if !value_is_null(&v) => Ok(Reply::Value(Some(v))),
        _ => {
            let mut message = String::from_str(COOKIE_NOT_FOUND_PREFIX);
            message.append(name);
            message.append(COOKIE_NOT_FOUND_SUFFIX);
            Err(WebDriverError::new(ErrorKind::NoSuchCookie, message))
        },
    }
}

pub fn add_script(request: AddCookieRequest) -> (r: ScriptCall)
    ensures
        r.script@ == ADD_COOKIE_SCRIPT@,
        r.args@.len() == 1,
        r.args@[0] == ScriptArg::Cookie(request.cookie),
{
    let args = vec![ScriptArg::Cookie(request.cookie)];
    ScriptCall { script: ADD_COOKIE_SCRIPT, args }
}

pub fn delete_script(name: String) -> (r: ScriptCall)
    ensures
        runs(r, DELETE_COOKIE_SCRIPT@, seq![name@]),
{
    call1(DELETE_COOKIE_SCRIPT, name)
}

pub fn delete_all_script() -> (r: ScriptCall)
    ensures
        runs(r, DELETE_ALL_COOKIES_SCRIPT@, Seq::empty()),
{
    call0(DELETE_ALL_COOKIES_SCRIPT)
}

} // verus!
