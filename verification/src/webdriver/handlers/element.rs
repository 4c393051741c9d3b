//! Element commands: finding elements and reading or acting on one element.

use vstd::prelude::*;
use crate::webdriver::error::{failed_with, ErrorKind, WebDriverError};
use crate::webdriver::handlers::{call0, call1, call2, runs, Reply, ScriptCall};

verus! {

pub struct ElementLocationRequest {
    pub using: String,
    pub value: String,
}

pub struct ElementValueRequest {
    pub text: Option<String>,
    pub value: Option<Vec<String>>,
}

pub const ACTIVE_ELEMENT_SCRIPT: &'static str = "() => document.activeElement";
pub const IS_SELECTED_SCRIPT: &'static str = "(id) => { const el = window.__bitfunWd.getElement(id); return !!el && !!(el.selected || el.checked); }";
pub const IS_DISPLAYED_SCRIPT: &'static str = "(id) => { const el = window.__bitfunWd.getElement(id); return window.__bitfunWd.isDisplayed(el); }";
pub const GET_ATTRIBUTE_SCRIPT: &'static str = "(id, name) => { const el = window.__bitfunWd.getElement(id); return el ? el.getAttribute(name) : null; }";
pub const GET_PROPERTY_SCRIPT: &'static str = "(id, name) => { const el = window.__bitfunWd.getElement(id); return el ? el[name] : null; }";
pub const GET_CSS_VALUE_SCRIPT: &'static str = "(id, propertyName) => { const el = window.__bitfunWd.getElement(id); return el ? window.getComputedStyle(el).getPropertyValue(propertyName) : ''; }";
pub const GET_TEXT_SCRIPT: &'static str = "(id) => { const el = window.__bitfunWd.getElement(id); return el ? (el.innerText ?? el.textContent ?? '') : ''; }";
pub const GET_COMPUTED_ROLE_SCRIPT: &'static str = "(id) => { const el = window.__bitfunWd.getElement(id); if (!el) { return ''; } const explicitRole = el.getAttribute('role'); if (explicitRole) { return explicitRole; } const tag = String(el.tagName || '').toLowerCase(); if (tag === 'button') return 'button'; if (tag === 'a' && el.hasAttribute('href')) return 'link'; if (tag === 'input') { const type = String(el.getAttribute('type') || 'text').toLowerCase(); if (type === 'checkbox') return 'checkbox'; if (type === 'radio') return 'radio'; if (type === 'submit' || type === 'button' || type === 'reset') return 'button'; return 'textbox'; } if (tag === 'select') return 'combobox'; if (tag === 'textarea') return 'textbox'; return ''; }";
pub const GET_COMPUTED_LABEL_SCRIPT: &'static str = "(id) => { const el = window.__bitfunWd.getElement(id); if (!el) { return ''; } const labelledBy = el.getAttribute('aria-labelledby'); if (labelledBy) { return labelledBy.split(/\\s+/).map((labelId) => document.getElementById(labelId)?.innerText?.trim() || '').filter(Boolean).join(' ').trim(); } const ariaLabel = el.getAttribute('aria-label'); if (ariaLabel) { return ariaLabel; } const htmlFor = el.id ? document.querySelector(`label[for=\"${el.id}\"]`) : null; if (htmlFor) { return (htmlFor.innerText || htmlFor.textContent || '').trim(); } return (el.innerText || el.textContent || el.getAttribute('value') || '').trim(); }";
pub const GET_NAME_SCRIPT: &'static str = "(id) => { const el = window.__bitfunWd.getElement(id); return el ? String(el.tagName || '').toLowerCase() : ''; }";
pub const GET_RECT_SCRIPT: &'static str = "(id) => { const el = window.__bitfunWd.getElement(id); if (!el) { return null; } const rect = el.getBoundingClientRect(); return { x: rect.x, y: rect.y, width: rect.width, height: rect.height, top: rect.top, left: rect.left, right: rect.right, bottom: rect.bottom }; }";
pub const IS_ENABLED_SCRIPT: &'static str = "(id) => { const el = window.__bitfunWd.getElement(id); return !!el && !el.disabled; }";
pub const CLICK_SCRIPT: &'static str = "(id) => { const el = window.__bitfunWd.getElement(id); if (!el) { throw new Error('Element not found'); } window.__bitfunWd.dispatchPointerClick(el, 0, false); return null; }";
pub const CLEAR_SCRIPT: &'static str = "(id) => { const el = window.__bitfunWd.getElement(id); if (!el) { throw new Error('Element not found'); } window.__bitfunWd.clearElement(el); return null; }";
pub const SEND_KEYS_SCRIPT: &'static str = "(id, text) => { const el = window.__bitfunWd.getElement(id); if (!el) { throw new Error('Element not found'); } window.__bitfunWd.setElementText(el, text); return null; }";

pub const NO_ELEMENT_MATCHED: &'static str = "No element matched the selector";
pub const NO_CHILD_ELEMENT_MATCHED: &'static str = "No child element matched the selector";

/// The first of the elements found, or "no such element" with `message` when none was.
pub fn first_element(results: Vec<serde_json::Value>, message: &str) -> (r: Result<Reply, WebDriverError>)
    ensures
        results@.len() > 0 ==> r == Ok::<Reply, WebDriverError>(Reply::Value(Some(results@[0]))),
        results@.len() == 0 ==> failed_with(r, ErrorKind::NoSuchElement, message@),
{
    let mut results = results;
    if results.len() == 0 {
        Err(WebDriverError::from_text(ErrorKind::NoSuchElement, message))
    } else {
        let first = results.remove(0);
        Ok(Reply::Value(Some(first)))
    }
}

/// The reply to "find element" from the document.
pub fn find_reply(results: Vec<serde_json::Value>) -> (r: Result<Reply, WebDriverError>)
    ensures
        results@.len() > 0 ==> r == Ok::<Reply, WebDriverError>(Reply::Value(Some(results@[0]))),
        results@.len() == 0 ==> failed_with(r, ErrorKind::NoSuchElement, NO_ELEMENT_MATCHED@),
{
    first_element(results, NO_ELEMENT_MATCHED)
}

/// The reply to "find element" from an element.
pub fn find_from_element_reply(results: Vec<serde_json::Value>) -> (r: Result<Reply, WebDriverError>)
    ensures
        results@.len() > 0 ==> r == Ok::<Reply, WebDriverError>(Reply::Value(Some(results@[0]))),
        results@.len() == 0 ==> failed_with(r, ErrorKind::NoSuchElement, NO_CHILD_ELEMENT_MATCHED@),
{
    first_element(results, NO_CHILD_ELEMENT_MATCHED)
}

pub fn get_active_script() -> (r: ScriptCall)
    ensures
        runs(r, ACTIVE_ELEMENT_SCRIPT@, Seq::empty()),
{
    call0(ACTIVE_ELEMENT_SCRIPT)
}

/// A command on one element.
pub enum ElementCommand {
    IsSelected,
    IsDisplayed,
    GetAttribute(String),
    GetProperty(String),
    GetCssValue(String),
    GetText,
    GetComputedRole,
    GetComputedLabel,
    GetName,
    GetRect,
    IsEnabled,
    Click,
    Clear,
    SendKeys(String),
}

/// The script of an element command.
pub open spec fn element_script_text(command: ElementCommand) -> Seq<char> {
    match command {
        ElementCommand::IsSelected => IS_SELECTED_SCRIPT@,
        ElementCommand::IsDisplayed => IS_DISPLAYED_SCRIPT@,
        ElementCommand::GetAttribute(_) => GET_ATTRIBUTE_SCRIPT@,
        ElementCommand::GetProperty(_) => GET_PROPERTY_SCRIPT@,
        ElementCommand::GetCssValue(_) => GET_CSS_VALUE_SCRIPT@,
        ElementCommand::GetText => GET_TEXT_SCRIPT@,
        ElementCommand::GetComputedRole => GET_COMPUTED_ROLE_SCRIPT@,
        ElementCommand::GetComputedLabel => GET_COMPUTED_LABEL_SCRIPT@,
        ElementCommand::GetName => GET_NAME_SCRIPT@,
        ElementCommand::GetRect => GET_RECT_SCRIPT@,
        ElementCommand::IsEnabled => IS_ENABLED_SCRIPT@,
        ElementCommand::Click => CLICK_SCRIPT@,
        ElementCommand::Clear => CLEAR_SCRIPT@,
        ElementCommand::SendKeys(_) => SEND_KEYS_SCRIPT@,
    }
}

/// The string arguments of an element command: the element id, then the attribute,
/// property or CSS property name, or the text to type.
pub open spec fn element_script_args(command: ElementCommand, element_id: Seq<char>) -> Seq<Seq<char>> {
    match command {
        ElementCommand::GetAttribute(name) => seq![element_id, name@],
        ElementCommand::GetProperty(name) => seq![element_id, name@],
        ElementCommand::GetCssValue(name) => seq![element_id, name@],
        ElementCommand::SendKeys(text) => seq![element_id, text@],
        _ => seq![element_id],
    }
}

/// Whether the command acts on the element (and replies with `null`) rather than
/// reading from it (and replying with the script's value).
pub open spec fn is_action(command: ElementCommand) -> bool {
    command is Click || command is Clear || command is SendKeys
}

pub fn element_script(command: &ElementCommand, element_id: String) -> (r: ScriptCall)
    ensures
        runs(r, element_script_text(*command), element_script_args(*command, element_id@)),
{
    match command {
        ElementCommand::IsSelected => call1(IS_SELECTED_SCRIPT, element_id),
        ElementCommand::IsDisplayed => call1(IS_DISPLAYED_SCRIPT, element_id),
        ElementCommand::GetAttribute(name) => call2(GET_ATTRIBUTE_SCRIPT, element_id, name.clone()),
        ElementCommand::GetProperty(name) => call2(GET_PROPERTY_SCRIPT, element_id, name.clone()),
        ElementCommand::GetCssValue(name) => call2(GET_CSS_VALUE_SCRIPT, element_id, name.clone()),
        ElementCommand::GetText => call1(GET_TEXT_SCRIPT, element_id),
        ElementCommand::GetComputedRole => call1(GET_COMPUTED_ROLE_SCRIPT, element_id),
        ElementCommand::GetComputedLabel => call1(GET_COMPUTED_LABEL_SCRIPT, element_id),
        ElementCommand::GetName => call1(GET_NAME_SCRIPT, element_id),
        ElementCommand::GetRect => call1(GET_RECT_SCRIPT, element_id),
        ElementCommand::IsEnabled => call1(IS_ENABLED_SCRIPT, element_id),
        ElementCommand::Click => call1(CLICK_SCRIPT, element_id),
        ElementCommand::Clear => call1(CLEAR_SCRIPT, element_id),
        ElementCommand::SendKeys(text) => call2(SEND_KEYS_SCRIPT, element_id, text.clone()),
    }
}

/// A number for each element command, to tell commands apart in statements.
pub open spec fn command_index(command: ElementCommand) -> int {
    match command {
        ElementCommand::IsSelected => 0,
        ElementCommand::IsDisplayed => 1,
        ElementCommand::GetAttribute(_) => 2,
        ElementCommand::GetProperty(_) => 3,
        ElementCommand::GetCssValue(_) => 4,
        ElementCommand::GetText => 5,
        ElementCommand::GetComputedRole => 6,
        ElementCommand::GetComputedLabel => 7,
        ElementCommand::GetName => 8,
        ElementCommand::GetRect => 9,
        ElementCommand::IsEnabled => 10,
        ElementCommand::Click => 11,
        ElementCommand::Clear => 12,
        ElementCommand::SendKeys(_) => 13,
    }
}

/// The lengths of the element scripts, read off their text.
proof fn lemma_element_script_lengths()
    ensures
        IS_SELECTED_SCRIPT@.len() == 102,
        IS_DISPLAYED_SCRIPT@.len() == 98,
        GET_ATTRIBUTE_SCRIPT@.len() == 104,
        GET_PROPERTY_SCRIPT@.len() == 91,
        GET_CSS_VALUE_SCRIPT@.len() == 147,
        GET_TEXT_SCRIPT@.len() == 113,
        GET_COMPUTED_ROLE_SCRIPT@.len() == 689,
        GET_COMPUTED_LABEL_SCRIPT@.len() == 625,
        GET_NAME_SCRIPT@.len() == 113,
        GET_RECT_SCRIPT@.len() == 268,
        IS_ENABLED_SCRIPT@.len() == 85,
        CLICK_SCRIPT@.len() == 174,
        CLEAR_SCRIPT@.len() == 156,
        SEND_KEYS_SCRIPT@.len() == 170,
        GET_TEXT_SCRIPT@[67] == '(',
        GET_NAME_SCRIPT@[67] == 'S',
{
    reveal_strlit("(id) => { const el = window.__bitfunWd.getElement(id); return !!el && !!(el.selected || el.checked); }");
    reveal_strlit("(id) => { const el = window.__bitfunWd.getElement(id); return window.__bitfunWd.isDisplayed(el); }");
    reveal_strlit("(id, name) => { const el = window.__bitfunWd.getElement(id); return el ? el.getAttribute(name) : null; }");
    reveal_strlit("(id, name) => { const el = window.__bitfunWd.getElement(id); return el ? el[name] : null; }");
    reveal_strlit("(id, propertyName) => { const el = window.__bitfunWd.getElement(id); return el ? window.getComputedStyle(el).getPropertyValue(propertyName) : ''; }");
    reveal_strlit("(id) => { const el = window.__bitfunWd.getElement(id); return el ? (el.innerText ?? el.textContent ?? '') : ''; }");
    reveal_strlit("(id) => { const el = window.__bitfunWd.getElement(id); if (!el) { return ''; } const explicitRole = el.getAttribute('role'); if (explicitRole) { return explicitRole; } const tag = String(el.tagName || '').toLowerCase(); if (tag === 'button') return 'button'; if (tag === 'a' && el.hasAttribute('href')) return 'link'; if (tag === 'input') { const type = String(el.getAttribute('type') || 'text').toLowerCase(); if (type === 'checkbox') return 'checkbox'; if (type === 'radio') return 'radio'; if (type === 'submit' || type === 'button' || type === 'reset') return 'button'; return 'textbox'; } if (tag === 'select') return 'combobox'; if (tag === 'textarea') return 'textbox'; return ''; }");
    reveal_strlit("(id) => { const el = window.__bitfunWd.getElement(id); if (!el) { return ''; } const labelledBy = el.getAttribute('aria-labelledby'); if (labelledBy) { return labelledBy.split(/\\s+/).map((labelId) => document.getElementById(labelId)?.innerText?.trim() || '').filter(Boolean).join(' ').trim(); } const ariaLabel = el.getAttribute('aria-label'); if (ariaLabel) { return ariaLabel; } const htmlFor = el.id ? document.querySelector(`label[for=\"${el.id}\"]`) : null; if (htmlFor) { return (htmlFor.innerText || htmlFor.textContent || '').trim(); } return (el.innerText || el.textContent || el.getAttribute('value') || '').trim(); }");
    reveal_strlit("(id) => { const el = window.__bitfunWd.getElement(id); return el ? String(el.tagName || '').toLowerCase() : ''; }");
    reveal_strlit("(id) => { const el = window.__bitfunWd.getElement(id); if (!el) { return null; } const rect = el.getBoundingClientRect(); return { x: rect.x, y: rect.y, width: rect.width, height: rect.height, top: rect.top, left: rect.left, right: rect.right, bottom: rect.bottom }; }");
    reveal_strlit("(id) => { const el = window.__bitfunWd.getElement(id); return !!el && !el.disabled; }");
    reveal_strlit("(id) => { const el = window.__bitfunWd.getElement(id); if (!el) { throw new Error('Element not found'); } window.__bitfunWd.dispatchPointerClick(el, 0, false); return null; }");
    reveal_strlit("(id) => { const el = window.__bitfunWd.getElement(id); if (!el) { throw new Error('Element not found'); } window.__bitfunWd.clearElement(el); return null; }");
    reveal_strlit("(id, text) => { const el = window.__bitfunWd.getElement(id); if (!el) { throw new Error('Element not found'); } window.__bitfunWd.setElementText(el, text); return null; }");
}

/// Each element command runs its own script, on the element id followed by its own
/// argument: reading the selected, displayed or enabled state, an attribute, a DOM
/// property (the live `el[name]`, not the attribute), a computed CSS value, the text,
/// role, label, tag name or rectangle; clicking, clearing or typing. Two different
/// commands never run the same script.
pub proof fn lemma_element_commands_run_their_scripts(c1: ElementCommand, c2: ElementCommand, name: String, element_id: Seq<char>)
    ensures
        element_script_text(ElementCommand::IsSelected) == IS_SELECTED_SCRIPT@,
        element_script_text(ElementCommand::IsDisplayed) == IS_DISPLAYED_SCRIPT@,
        element_script_text(ElementCommand::GetAttribute(name)) == GET_ATTRIBUTE_SCRIPT@,
        element_script_text(ElementCommand::GetProperty(name)) == GET_PROPERTY_SCRIPT@,
        element_script_text(ElementCommand::GetCssValue(name)) == GET_CSS_VALUE_SCRIPT@,
        element_script_text(ElementCommand::GetText) == GET_TEXT_SCRIPT@,
        element_script_text(ElementCommand::GetComputedRole) == GET_COMPUTED_ROLE_SCRIPT@,
        element_script_text(ElementCommand::GetComputedLabel) == GET_COMPUTED_LABEL_SCRIPT@,
        element_script_text(ElementCommand::GetName) == GET_NAME_SCRIPT@,
        element_script_text(ElementCommand::GetRect) == GET_RECT_SCRIPT@,
        element_script_text(ElementCommand::IsEnabled) == IS_ENABLED_SCRIPT@,
        element_script_text(ElementCommand::Click) == CLICK_SCRIPT@,
        element_script_text(ElementCommand::Clear) == CLEAR_SCRIPT@,
        element_script_text(ElementCommand::SendKeys(name)) == SEND_KEYS_SCRIPT@,
        element_script_args(ElementCommand::GetAttribute(name), element_id) == seq![element_id, name@],
        element_script_args(ElementCommand::GetProperty(name), element_id) == seq![element_id, name@],
        element_script_args(ElementCommand::GetCssValue(name), element_id) == seq![element_id, name@],
        element_script_args(ElementCommand::SendKeys(name), element_id) == seq![element_id, name@],
        element_script_args(ElementCommand::Clear, element_id) == seq![element_id],
        element_script_args(ElementCommand::Click, element_id) == seq![element_id],
        !(c1 is GetAttribute || c1 is GetProperty || c1 is GetCssValue || c1 is SendKeys)
            ==> element_script_args(c1, element_id) == seq![element_id],
        command_index(c1) != command_index(c2) ==> element_script_text(c1) != element_script_text(c2),
{
    lemma_element_script_lengths();
    if command_index(c1) != command_index(c2) && element_script_text(c1) == element_script_text(c2) {
        assert(element_script_text(c1).len() == element_script_text(c2).len());
        assert(element_script_text(c1)[67] == element_script_text(c2)[67]);
    }
}

/// Clicking, clearing and typing answer `null`; every read answers with the value the
/// page returned.
pub proof fn lemma_actions_reply_null(name: String)
    ensures
        is_action(ElementCommand::Click),
        is_action(ElementCommand::Clear),
        is_action(ElementCommand::SendKeys(name)),
        !is_action(ElementCommand::IsSelected),
        !is_action(ElementCommand::IsDisplayed),
        !is_action(ElementCommand::GetAttribute(name)),
        !is_action(ElementCommand::GetProperty(name)),
        !is_action(ElementCommand::GetCssValue(name)),
        !is_action(ElementCommand::GetText),
        !is_action(ElementCommand::GetComputedRole),
        !is_action(ElementCommand::GetComputedLabel),
        !is_action(ElementCommand::GetName),
        !is_action(ElementCommand::GetRect),
        !is_action(ElementCommand::IsEnabled),
{
}

impl ElementCommand {
    pub fn replies_null(&self) -> (r: bool)
        ensures
            r == is_action(*self),
    {
        match self {
            ElementCommand::Click | ElementCommand::Clear | ElementCommand::SendKeys(_) => true,
            _ => false,
        }
    }
}

/// The reply to an element command once its script returned `value`.
pub fn element_reply(command: &ElementCommand, value: Option<serde_json::Value>) -> (r: Reply)
    ensures
        is_action(*command) ==> r == Reply::Null,
        !is_action(*command) ==> r == Reply::Value(value),
{
    if command.replies_null() {
        Reply::Null
    } else {
        Reply::Value(value)
    }
}

/// The concatenation of the texts.
pub open spec fn joined(items: Seq<String>) -> Seq<char>
    decreases items.len(),
{
    if items.len() == 0 {
        Seq::empty()
    } else {
        joined(items.drop_last()) + items.last()@
    }
}

/// The text that "send keys" types: `text` when given, else the `value` items joined
/// without separator, else nothing.
pub open spec fn keys_text(text: Option<String>, value: Option<Vec<String>>) -> Seq<char> {
    match text {
        Some(t) => t@,
        None => match value {
            Some(items) => joined(items@),
            None => Seq::empty(),
        },
    }
}

impl ElementValueRequest {
    pub fn send_keys_text(self) -> (r: String)
        ensures
            r@ == keys_text(self.text, self.value),
    {
        match self.text {
            Some(t) => t,
            None => match self.value {
                Some(items) => {
                    let mut out = String::new();
                    let mut i: usize = 0;
                    while i < items.len()
                        invariant
                            i <= items@.len(),
                            out@ == joined(items@.take(i as int)),
                        decreases items@.len() - i,
                    {
                        assert(items@.take(i + 1).drop_last() == items@.take(i as int));
                        out.append(items[i].as_str());
                        i = i + 1;
                    }
                    assert(items@.take(items@.len() as int) == items@);
                    out
                },
                None => String::new(),
            },
        }
    }
}

} // verus!
