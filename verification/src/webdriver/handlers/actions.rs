//! Input action commands. Performing and releasing actions first clear the keys and
//! buttons the session holds pressed.

use vstd::prelude::*;
use crate::webdriver::handlers::{ScriptArg, ScriptCall};

verus! {

pub struct PerformActionsRequest {
    pub actions: Vec<serde_json::Value>,
}

pub const PERFORM_ACTIONS_SCRIPT: &'static str = "(actions) => { window.__bitfunWd.performActions(actions); return null; }";

/// The script that performs the actions: it gets the action sequences as one array.
pub fn perform_script(request: PerformActionsRequest) -> (r: ScriptCall)
    ensures
        r.script@ == PERFORM_ACTIONS_SCRIPT@,
        r.args@.len() == 1,
        r.args@[0] == ScriptArg::List(request.actions),
{
    let args = vec![ScriptArg::List(request.actions)];
    ScriptCall { script: PERFORM_ACTIONS_SCRIPT, args }
}

} // verus!
