//! The decisions of the WebDriver command handlers: which script each command runs
//! in the page and with which arguments, and how the script's result becomes the
//! command's reply or error.

pub mod actions;
pub mod cookie;
pub mod element;
pub mod navigation;
pub mod session;
pub mod shadow;

use vstd::prelude::*;
use crate::webdriver::handlers::cookie::Cookie;

verus! {

/// An argument handed to a page script.
#[derive(Debug)]
pub enum ScriptArg {
    /// A JSON string.
    Text(String),
    /// A JSON array of the given values.
    List(Vec<serde_json::Value>),
    /// The JSON object of a cookie.
    Cookie(Cookie),
}

/// A script to run in the page, with its arguments.
#[derive(Debug)]
pub struct ScriptCall {
    pub script: &'static str,
    pub args: Vec<ScriptArg>,
}

/// The arguments are JSON strings with the given texts, in order.
pub open spec fn text_args(args: Seq<ScriptArg>, texts: Seq<Seq<char>>) -> bool {
    &&& args.len() == texts.len()
    &&& forall|i: int| 0 <= i < args.len() ==> (#[trigger] args[i] matches ScriptArg::Text(t) && t@ == texts[i])
}

/// `call` runs `script` with JSON string arguments of the given texts.
pub open spec fn runs(call: ScriptCall, script: Seq<char>, texts: Seq<Seq<char>>) -> bool {
    call.script@ == script && text_args(call.args@, texts)
}

/// A script call without arguments.
pub fn call0(script: &'static str) -> (r: ScriptCall)
    ensures
        runs(r, script@, Seq::empty()),
{
    ScriptCall { script, args: Vec::new() }
}

/// A script call with one string argument.
pub fn call1(script: &'static str, a: String) -> (r: ScriptCall)
    ensures
        runs(r, script@, seq![a@]),
{
    let args = vec![ScriptArg::Text(a)];
    ScriptCall { script, args }
}

/// A script call with two string arguments.
pub fn call2(script: &'static str, a: String, b: String) -> (r: ScriptCall)
    ensures
        runs(r, script@, seq![a@, b@]),
{
    let args = vec![ScriptArg::Text(a), ScriptArg::Text(b)];
    ScriptCall { script, args }
}

/// A script call with three string arguments.
pub fn call3(script: &'static str, a: String, b: String, c: String) -> (r: ScriptCall)
    ensures
        runs(r, script@, seq![a@, b@, c@]),
{
    let args = vec![ScriptArg::Text(a), ScriptArg::Text(b), ScriptArg::Text(c)];
    ScriptCall { script, args }
}

pub const STATUS_MESSAGE: &'static str = "BitFun embedded WebDriver is ready";
pub const BUILD_NAME: &'static str = "bitfun-embedded-webdriver";

/// The reply to "status": ready when a window to start sessions in exists, with the
/// server's message and build name and version.
pub struct StatusReply {
    pub ready: bool,
    pub message: String,
    pub build_version: String,
    pub build_name: String,
}

pub fn status_reply(has_initial_window: bool, build_version: String) -> (r: StatusReply)
    ensures
        r.ready == has_initial_window,
        r.message@ == STATUS_MESSAGE@,
        r.build_version@ == build_version@,
        r.build_name@ == BUILD_NAME@,
{
    StatusReply {
        ready: has_initial_window,
        message: String::from_str(STATUS_MESSAGE),
        build_version,
        build_name: String::from_str(BUILD_NAME),
    }
}

/// The reply to a successful command.
#[derive(Debug)]
pub enum Reply {
    /// The command has no value (JSON `null`).
    Null,
    /// The value a script returned, `None` standing for JSON `null`.
    Value(Option<serde_json::Value>),
    /// A list of element references.
    Elements(Vec<serde_json::Value>),
}

} // verus!
