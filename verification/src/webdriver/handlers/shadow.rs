//! Shadow DOM commands.

use vstd::prelude::*;
use crate::json::{json_is_null, value_is_null};
use crate::webdriver::error::{failed_with, ErrorKind, WebDriverError};
use crate::webdriver::handlers::{call1, call3, runs, Reply, ScriptCall};

verus! {

pub struct FindShadowRequest {
    pub using: String,
    pub value: String,
}

pub const GET_SHADOW_ROOT_SCRIPT: &'static str = "(elementId) => window.__bitfunWd.getShadowRoot(elementId)";
pub const FIND_ELEMENT_IN_SHADOW_SCRIPT: &'static str = "(shadowId, using, value) => { const results = window.__bitfunWd.findElementsFromShadow(shadowId, using, value); return results.length ? results[0] : null; }";
pub const FIND_ELEMENTS_IN_SHADOW_SCRIPT: &'static str = "(shadowId, using, value) => window.__bitfunWd.findElementsFromShadow(shadowId, using, value)";
pub const NO_SHADOW_ROOT: &'static str = "Element does not have a shadow root";
pub const NO_SHADOW_CHILD_MATCHED: &'static str = "No shadow child element matched the selector";

pub fn get_shadow_root_script(element_id: String) -> (r: ScriptCall)
    ensures
        runs(r, GET_SHADOW_ROOT_SCRIPT@, seq![element_id@]),
{
    call1(GET_SHADOW_ROOT_SCRIPT, element_id)
}

/// The reply to "get shadow root": the shadow root reference, or "no such shadow
/// root" when the script failed or returned nothing or `null`.
pub fn get_shadow_root_reply(outcome: Result<Option<serde_json::Value>, WebDriverError>) -> (r: Result<Reply, WebDriverError>)
    ensures
        match outcome {
            Ok(Some(v)) if !json_is_null(v) => r == Ok::<Reply, WebDriverError>(Reply::Value(Some(v))),
            _ => failed_with(r, ErrorKind::NoSuchShadowRoot, NO_SHADOW_ROOT@),
        },
{
    match outcome {
        Ok(Some(v)) if !value_is_null(&v) => Ok(Reply::Value(Some(v))),
        _ => Err(WebDriverError::from_text(ErrorKind::NoSuchShadowRoot, NO_SHADOW_ROOT)),
    }
}

pub fn find_element_in_shadow_script(shadow_id: String, request: FindShadowRequest) -> (r: ScriptCall)
    ensures
        runs(r, FIND_ELEMENT_IN_SHADOW_SCRIPT@, seq![shadow_id@, request.using@, request.value@]),
{
    call3(FIND_ELEMENT_IN_SHADOW_SCRIPT, shadow_id, request.using, request.value)
}

/// The reply to "find element" in a shadow root: the element, or "no such element"
/// when the script returned nothing or `null`.
pub fn find_element_in_shadow_reply(value: Option<serde_json::Value>) -> (r: Result<Reply, WebDriverError>)
    ensures
        match value {
            Some(v) if !json_is_null(v) => r == Ok::<Reply, WebDriverError>(Reply::Value(Some(v))),
            _ => failed_with(r, ErrorKind::NoSuchElement, NO_SHADOW_CHILD_MATCHED@),
        },
{
    match value {
        Some(v) if !value_is_null(&v) => Ok(Reply::Value(Some(v))),
        _ => Err(WebDriverError::from_text(ErrorKind::NoSuchElement, NO_SHADOW_CHILD_MATCHED)),
    }
}

pub fn find_elements_in_shadow_script(shadow_id: String, request: FindShadowRequest) -> (r: ScriptCall)
    ensures
        runs(r, FIND_ELEMENTS_IN_SHADOW_SCRIPT@, seq![shadow_id@, request.using@, request.value@]),
{
    call3(FIND_ELEMENTS_IN_SHADOW_SCRIPT, shadow_id, request.using, request.value)
}

} // verus!
