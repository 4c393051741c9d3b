//! The script bridge: the JavaScript that is injected into the webview to run a
//! WebDriver script, the table of requests that wait for the page's answer, and how
//! the page's answer (or its absence) becomes the command's result.

use vstd::prelude::*;
use crate::json::{
    json_array_text, json_string_literal, lemma_json_string_literal_sealed, literal_close, string_to_json, unescaped,
    values_to_json,
};
use crate::text::{decimal, str_eq, u64_to_decimal};
use crate::webdriver::error::{failed_with, ErrorKind, WebDriverError};

verus! {

/// The bridge event on which the page reports a script's result.
pub const BRIDGE_EVENT: &'static str = "bitfun_webdriver_result";

/// The helper that the page installs once (as `window.__bitfunWd`) and that runs the
/// scripts, stores element references and reports results on the bridge event. It is
/// kept in parts of a few dozen lines each.
pub const BRIDGE_HELPER_PART_1: &'static str = r#"
if (!window.__bitfunWd) {
  window.__bitfunWd = (() => {
    const ELEMENT_KEY = "element-6066-11e4-a52e-4f735466cecf";
    const SHADOW_KEY = "shadow-6066-11e4-a52e-4f735466cecf";
    const EVENT_NAME = "bitfun_webdriver_result";
    const STORE_KEY = "__bitfunWdElements";
    const LOG_KEY = "__bitfunWdLogs";
    const consolePatchedKey = "__bitfunWdConsolePatched";
    let currentFrameContext = [];

    const ensureStore = () => {
      if (!window[STORE_KEY]) {
        window[STORE_KEY] = Object.create(null);
      }
      return window[STORE_KEY];
    };

    const ensureLogs = () => {
      if (!window[LOG_KEY]) {
        window[LOG_KEY] = [];
      }
      return window[LOG_KEY];
    };

    const safeStringify = (value) => {
      if (typeof value === "string") {
        return value;
      }
      try {
        return JSON.stringify(value);
      } catch (_error) {
        return String(value);
      }
    };

    const cssEscape = (value) => {
      if (typeof CSS !== "undefined" && typeof CSS.escape === "function") {
        return CSS.escape(String(value));
      }
      return String(value).replace(/[^a-zA-Z0-9_\u00A0-\uFFFF-]/g, (char) => `\\${char}`);
    };

    const setFrameContext = (frameContext) => {
      currentFrameContext = Array.isArray(frameContext) ? frameContext : [];
    };

    const getFrameContext = () => currentFrameContext;

    const patchConsole = () => {
      if (window[consolePatchedKey]) {
        return;
      }
"#;

pub const BRIDGE_HELPER_PART_2: &'static str = r#"      window[consolePatchedKey] = true;
      ["log", "info", "warn", "error", "debug"].forEach((level) => {
        const original = console[level];
        console[level] = (...args) => {
          try {
            ensureLogs().push({
              level: level === "warn" ? "WARNING" : level === "error" ? "SEVERE" : "INFO",
              message: args.map((item) => safeStringify(item)).join(" "),
              timestamp: Date.now()
            });
            if (ensureLogs().length > 200) {
              ensureLogs().splice(0, ensureLogs().length - 200);
            }
          } catch (_error) {}
          return original.apply(console, args);
        };
      });
    };

    const ensureAlertState = (targetWindow = window) => {
      if (!targetWindow.__bitfunWdAlertState) {
        targetWindow.__bitfunWdAlertState = {
          open: false,
          type: null,
          text: "",
          defaultValue: null,
          promptText: null
        };
      }
      return targetWindow.__bitfunWdAlertState;
    };

    const patchDialogs = (targetWindow = window) => {
      const patchedKey = "__bitfunWdDialogsPatched";
      if (targetWindow[patchedKey]) {
        return;
      }
      targetWindow[patchedKey] = true;

      const state = ensureAlertState(targetWindow);
      targetWindow.alert = (message) => {
        state.open = true;
        state.type = "alert";
        state.text = String(message ?? "");
        state.defaultValue = null;
"#;

pub const BRIDGE_HELPER_PART_3: &'static str = r#"        state.promptText = null;
      };
      targetWindow.confirm = (message) => {
        state.open = true;
        state.type = "confirm";
        state.text = String(message ?? "");
        state.defaultValue = null;
        state.promptText = null;
        return false;
      };
      targetWindow.prompt = (message, defaultValue = "") => {
        state.open = true;
        state.type = "prompt";
        state.text = String(message ?? "");
        state.defaultValue = defaultValue == null ? null : String(defaultValue);
        state.promptText = defaultValue == null ? null : String(defaultValue);
        return null;
      };
    };

    const emitResult = async (payload) => {
      if (!window.__TAURI__ || !window.__TAURI__.event || typeof window.__TAURI__.event.emit !== "function") {
        throw new Error("Tauri event bridge unavailable");
      }
      await window.__TAURI__.event.emit(EVENT_NAME, payload);
    };

    const nextElementId = () => {
      window.__bitfunWdElementCounter = (window.__bitfunWdElementCounter || 0) + 1;
      return `bf-el-${window.__bitfunWdElementCounter}`;
    };

    const storeElement = (element) => {
      if (!element || typeof element !== "object") {
        return null;
      }
      const store = ensureStore();
      const existing = Object.entries(store).find(([, candidate]) => candidate === element);
      const id = existing ? existing[0] : nextElementId();
      store[id] = element;
"#;

pub const BRIDGE_HELPER_PART_4: &'static str = r#"      return { [ELEMENT_KEY]: id, ELEMENT: id };
    };

    const storeShadowRoot = (shadowRoot) => {
      if (!shadowRoot || typeof shadowRoot !== "object") {
        return null;
      }
      const store = ensureStore();
      const existing = Object.entries(store).find(([, candidate]) => candidate === shadowRoot);
      const id = existing ? existing[0] : nextElementId();
      store[id] = shadowRoot;
      return { [SHADOW_KEY]: id };
    };

    const getElement = (elementId) => {
      if (!elementId) {
        return null;
      }
      return ensureStore()[elementId] || null;
    };

    const isElementLike = (value) => !!value && typeof value === "object" && value.nodeType === 1;

    const getCurrentWindow = (frameContext = currentFrameContext) => {
      let currentWindowRef = window;
      for (const frameRef of frameContext || []) {
        let frameElement = null;
        if (!frameRef || typeof frameRef !== "object") {
          throw new Error("Invalid frame reference");
        }
        if (frameRef.kind === "index") {
          const frames = Array.from(currentWindowRef.document.querySelectorAll("iframe, frame"));
          frameElement = frames[Number(frameRef.value)];
        } else if (frameRef.kind === "element") {
          frameElement = getElement(String(frameRef.value));
        } else {
          throw new Error("Unsupported frame reference");
        }

        if (!frameElement || !isElementLike(frameElement)) {
"#;

pub const BRIDGE_HELPER_PART_5: &'static str = r#"          throw new Error("Unable to locate frame");
        }
        if (!/^(iframe|frame)$/i.test(String(frameElement.tagName || ""))) {
          throw new Error("Element is not a frame");
        }
        if (!frameElement.contentWindow) {
          throw new Error("Frame window is not available");
        }
        currentWindowRef = frameElement.contentWindow;
      }
      return currentWindowRef;
    };

    const getCurrentDocument = (frameContext = currentFrameContext) => {
      const currentWindowRef = getCurrentWindow(frameContext);
      if (!currentWindowRef.document) {
        throw new Error("Frame document is not available");
      }
      return currentWindowRef.document;
    };

    const serialize = (value, seen = new WeakSet()) => {
      if (value === undefined || value === null) {
        return value ?? null;
      }
      if (typeof value === "string" || typeof value === "number" || typeof value === "boolean") {
        return value;
      }
      if (isElementLike(value)) {
        return storeElement(value);
      }
      if (value && typeof value === "object" && typeof value.length === "number" && typeof value !== "string") {
        return Array.from(value).map((item) => serialize(item, seen));
      }
      if (value && typeof value === "object" && "x" in value && "y" in value && "width" in value && "height" in value && "top" in value && "left" in value) {
        return {
          x: value.x,
          y: value.y,
"#;

pub const BRIDGE_HELPER_PART_6: &'static str = r#"          width: value.width,
          height: value.height,
          top: value.top,
          right: value.right,
          bottom: value.bottom,
          left: value.left
        };
      }
      if (value && typeof value === "object" && "message" in value && "stack" in value) {
        return {
          name: value.name,
          message: value.message,
          stack: value.stack
        };
      }
      if (Array.isArray(value)) {
        return value.map((item) => serialize(item, seen));
      }
      if (typeof value === "object") {
        if (seen.has(value)) {
          return null;
        }
        seen.add(value);
        const out = {};
        Object.keys(value).forEach((key) => {
          out[key] = serialize(value[key], seen);
        });
        return out;
      }
      return String(value);
    };

    const deserialize = (value) => {
      if (Array.isArray(value)) {
        return value.map(deserialize);
      }
      if (value && typeof value === "object") {
        if (typeof value[ELEMENT_KEY] === "string") {
          return getElement(value[ELEMENT_KEY]);
        }
        if (typeof value[SHADOW_KEY] === "string") {
          return getElement(value[SHADOW_KEY]);
        }
        const out = {};
        Object.keys(value).forEach((key) => {
          out[key] = deserialize(value[key]);
        });
        return out;
      }
      return value;
    };

    const resolveRoot = (rootId, frameContext = currentFrameContext) => {
"#;

pub const BRIDGE_HELPER_PART_7: &'static str = r#"      if (!rootId) {
        return getCurrentDocument(frameContext);
      }
      return getElement(rootId) || getCurrentDocument(frameContext);
    };

    const findByXpath = (root, xpath) => {
      const results = [];
      const ownerDocument = root && root.ownerDocument ? root.ownerDocument : getCurrentDocument();
      const iterator = ownerDocument.evaluate(
        xpath,
        root,
        null,
        XPathResult.ORDERED_NODE_ITERATOR_TYPE,
        null
      );
      let node = iterator.iterateNext();
      while (node) {
        if (isElementLike(node)) {
          results.push(node);
        }
        node = iterator.iterateNext();
      }
      return results;
    };

    const findElements = (rootId, using, value, frameContext = currentFrameContext) => {
      const root = resolveRoot(rootId, frameContext);
      let matches = [];
      switch (using) {
        case "css selector":
          matches = Array.from(root.querySelectorAll(value));
          break;
        case "id":
          matches = Array.from(root.querySelectorAll(`#${cssEscape(value)}`));
          break;
        case "name":
          matches = Array.from(root.querySelectorAll(`[name="${cssEscape(value)}"]`));
          break;
        case "class name":
          matches = Array.from(root.getElementsByClassName(value));
          break;
        case "xpath":
          matches = findByXpath(root, value);
          break;
        case "link text":
"#;

pub const BRIDGE_HELPER_PART_8: &'static str = r#"          matches = Array.from(root.querySelectorAll("a")).filter((item) => (item.textContent || "").trim() === value);
          break;
        case "partial link text":
          matches = Array.from(root.querySelectorAll("a")).filter((item) => (item.textContent || "").includes(value));
          break;
        case "tag name":
          matches = Array.from(root.querySelectorAll(value));
          break;
        default:
          throw new Error(`Unsupported locator strategy: ${using}`);
      }
      return matches.map((item) => storeElement(item));
    };

    const validateFrameByIndex = (index, frameContext = currentFrameContext) => {
      const currentDocumentRef = getCurrentDocument(frameContext);
      const frames = Array.from(currentDocumentRef.querySelectorAll("iframe, frame"));
      return Number.isInteger(index) && index >= 0 && index < frames.length;
    };

    const validateFrameElement = (elementId) => {
      const element = getElement(elementId);
      return !!element && isElementLike(element) && /^(iframe|frame)$/i.test(String(element.tagName || "")) && !!element.contentWindow;
    };

    const getShadowRoot = (elementId) => {
      const element = getElement(elementId);
      if (!element || !isElementLike(element) || !element.shadowRoot) {
        return null;
      }
      return storeShadowRoot(element.shadowRoot);
    };

    const findElementsFromShadow = (shadowId, using, value, frameContext = currentFrameContext) => {
"#;

pub const BRIDGE_HELPER_PART_9: &'static str = r#"      const shadowRoot = getElement(shadowId);
      if (!shadowRoot) {
        throw new Error("No shadow root found");
      }
      return findElements(shadowId, using, value, frameContext);
    };

    const isDisplayed = (element) => {
      if (!element || !element.isConnected) {
        return false;
      }
      const style = window.getComputedStyle(element);
      if (style.display === "none" || style.visibility === "hidden" || style.visibility === "collapse") {
        return false;
      }
      if (Number(style.opacity || "1") === 0) {
        return false;
      }
      const rect = element.getBoundingClientRect();
      return rect.width > 0 && rect.height > 0;
    };

    const setSelectionRange = (element, start, end) => {
      if (typeof element.setSelectionRange === "function") {
        element.setSelectionRange(start, end);
      }
    };

    const emitInputEvents = (element) => {
      element.dispatchEvent(new Event("input", { bubbles: true }));
      element.dispatchEvent(new Event("change", { bubbles: true }));
    };

    const clearElement = (element) => {
      if (!element) {
        return;
      }
      if ("value" in element) {
        element.focus();
        element.value = "";
        emitInputEvents(element);
        return;
      }
      if (element.isContentEditable) {
        element.focus();
        element.textContent = "";
        emitInputEvents(element);
      }
    };

    const insertText = (element, text) => {
"#;

pub const BRIDGE_HELPER_PART_10: &'static str = r#"      if (!element) {
        return;
      }
      if ("value" in element) {
        const currentValue = String(element.value || "");
        const start = typeof element.selectionStart === "number" ? element.selectionStart : currentValue.length;
        const end = typeof element.selectionEnd === "number" ? element.selectionEnd : currentValue.length;
        const nextValue = currentValue.slice(0, start) + text + currentValue.slice(end);
        element.value = nextValue;
        const caret = start + text.length;
        setSelectionRange(element, caret, caret);
        emitInputEvents(element);
        return;
      }
      if (element.isContentEditable) {
        const selection = window.getSelection();
        element.focus();
        if (selection && selection.rangeCount > 0) {
          selection.deleteFromDocument();
          selection.getRangeAt(0).insertNode(document.createTextNode(text));
          selection.collapseToEnd();
        } else {
          element.appendChild(document.createTextNode(text));
        }
        emitInputEvents(element);
      }
    };

    const setElementText = (element, text) => {
      clearElement(element);
      insertText(element, text);
    };

    const dispatchKeyboardEvent = (target, type, key, modifiers) => {
      if (!target) {
        return true;
      }
      return target.dispatchEvent(
        new KeyboardEvent(type, {
          key,
          code: key,
          bubbles: true,
          cancelable: true,
"#;

pub const BRIDGE_HELPER_PART_11: &'static str = r#"          ctrlKey: modifiers.ctrl,
          shiftKey: modifiers.shift,
          altKey: modifiers.alt,
          metaKey: modifiers.meta
        })
      );
    };

    const applySpecialKey = (target, key, modifiers) => {
      if (!target) {
        return;
      }

      const isInputLike = "value" in target;
      if ((modifiers.ctrl || modifiers.meta) && key.toLowerCase() === "a" && isInputLike) {
        const value = String(target.value || "");
        setSelectionRange(target, 0, value.length);
        return;
      }

      if (key === "Backspace" && isInputLike) {
        const value = String(target.value || "");
        const start = typeof target.selectionStart === "number" ? target.selectionStart : value.length;
        const end = typeof target.selectionEnd === "number" ? target.selectionEnd : value.length;
        if (start !== end) {
          target.value = value.slice(0, start) + value.slice(end);
          setSelectionRange(target, start, start);
        } else if (start > 0) {
          target.value = value.slice(0, start - 1) + value.slice(end);
          setSelectionRange(target, start - 1, start - 1);
        }
        emitInputEvents(target);
        return;
      }

      if (key === "Enter") {
        if (isInputLike && target.tagName === "TEXTAREA" && !modifiers.ctrl && !modifiers.meta) {
          insertText(target, "\n");
        }
        return;
      }

      if (key.length === 1 && !modifiers.ctrl && !modifiers.meta && !modifiers.alt) {
"#;

pub const BRIDGE_HELPER_PART_12: &'static str = r#"        insertText(target, key);
      }
    };

    const dispatchPointerClick = (element, button, doubleClick) => {
      if (!element) {
        throw new Error("Element not found");
      }
      const rect = element.getBoundingClientRect();
      const options = {
        bubbles: true,
        cancelable: true,
        clientX: rect.left + rect.width / 2,
        clientY: rect.top + rect.height / 2,
        button,
        buttons: button === 2 ? 2 : 1
      };
      element.scrollIntoView({ block: "center", inline: "center" });
      if (typeof element.focus === "function") {
        element.focus();
      }
      element.dispatchEvent(new MouseEvent("mouseover", options));
      element.dispatchEvent(new MouseEvent("mousemove", options));
      element.dispatchEvent(new MouseEvent("mousedown", options));
      element.dispatchEvent(new MouseEvent("mouseup", options));
      if (button === 2) {
        element.dispatchEvent(new MouseEvent("contextmenu", options));
        return;
      }
      element.dispatchEvent(new MouseEvent("click", options));
      if (doubleClick) {
        element.dispatchEvent(new MouseEvent("dblclick", options));
      }
    };

    const performActions = (sources) => {
      let pointerTarget = null;
      const keyState = { ctrl: false, shift: false, alt: false, meta: false };
      sources.forEach((source) => {
        if (!source || !Array.isArray(source.actions)) {
          return;
        }

        if (source.type === "pointer") {
"#;

pub const BRIDGE_HELPER_PART_13: &'static str = r#"          let sawClick = false;
          let button = 0;
          source.actions.forEach((action) => {
            if (action.type === "pointerMove" && action.origin && typeof action.origin[ELEMENT_KEY] === "string") {
              pointerTarget = getElement(action.origin[ELEMENT_KEY]);
            } else if (action.type === "pointerDown") {
              button = Number(action.button || 0);
            } else if (action.type === "pointerUp") {
              if (pointerTarget) {
                dispatchPointerClick(pointerTarget, button, sawClick && button === 0);
              }
              sawClick = true;
            }
          });
          return;
        }

        if (source.type === "key") {
          source.actions.forEach((action) => {
            if (action.type === "pause") {
              return;
            }
            const target = document.activeElement || document.body;
            const key = String(action.value || "");
            if (action.type === "keyDown") {
              if (key === "Control") keyState.ctrl = true;
              if (key === "Shift") keyState.shift = true;
              if (key === "Alt") keyState.alt = true;
              if (key === "Meta") keyState.meta = true;
              dispatchKeyboardEvent(target, "keydown", key, keyState);
              applySpecialKey(target, key, keyState);
              if (key.length === 1) {
                dispatchKeyboardEvent(target, "keypress", key, keyState);
              }
"#;

pub const BRIDGE_HELPER_PART_14: &'static str = r#"              return;
            }
            dispatchKeyboardEvent(target, "keyup", key, keyState);
            if (key === "Control") keyState.ctrl = false;
            if (key === "Shift") keyState.shift = false;
            if (key === "Alt") keyState.alt = false;
            if (key === "Meta") keyState.meta = false;
          });
        }
      });
    };

    const takeLogs = () => {
      const logs = ensureLogs().slice();
      ensureLogs().length = 0;
      return logs;
    };

    const parseDocumentCookies = (doc) => {
      const raw = doc.cookie || "";
      if (!raw.trim()) {
        return [];
      }
      return raw
        .split(/;\s*/)
        .filter(Boolean)
        .map((entry) => {
          const separator = entry.indexOf("=");
          const name = separator >= 0 ? entry.slice(0, separator) : entry;
          const value = separator >= 0 ? entry.slice(separator + 1) : "";
          return {
            name: decodeURIComponent(name),
            value: decodeURIComponent(value),
            path: null,
            domain: null,
            secure: false,
            httpOnly: false,
            expiry: null,
            sameSite: null
          };
        });
    };

    const getAllCookies = (frameContext = currentFrameContext) => parseDocumentCookies(getCurrentDocument(frameContext));

    const getCookie = (name, frameContext = currentFrameContext) =>
      getAllCookies(frameContext).find((cookie) => cookie.name === name) || null;

"#;

pub const BRIDGE_HELPER_PART_15: &'static str = r#"    const addCookie = (cookie, frameContext = currentFrameContext) => {
      if (!cookie || typeof cookie !== "object") {
        throw new Error("Invalid cookie payload");
      }
      if (!cookie.name) {
        throw new Error("Cookie name is required");
      }
      const doc = getCurrentDocument(frameContext);
      const parts = [
        `${encodeURIComponent(cookie.name)}=${encodeURIComponent(cookie.value ?? "")}`
      ];
      if (cookie.path) parts.push(`Path=${cookie.path}`);
      if (cookie.domain) parts.push(`Domain=${cookie.domain}`);
      if (cookie.expiry) parts.push(`Expires=${new Date(Number(cookie.expiry) * 1000).toUTCString()}`);
      if (cookie.secure) parts.push("Secure");
      if (cookie.sameSite) parts.push(`SameSite=${cookie.sameSite}`);
      doc.cookie = parts.join("; ");
      return null;
    };

    const deleteCookie = (name, frameContext = currentFrameContext) => {
      const doc = getCurrentDocument(frameContext);
      const expires = "Thu, 01 Jan 1970 00:00:00 GMT";
      doc.cookie = `${encodeURIComponent(name)}=; Expires=${expires}; Path=/`;
      doc.cookie = `${encodeURIComponent(name)}=; Expires=${expires}`;
      return null;
    };

    const deleteAllCookies = (frameContext = currentFrameContext) => {
      getAllCookies(frameContext).forEach((cookie) => {
        deleteCookie(cookie.name, frameContext);
      });
      return null;
    };

    const getAlertText = (frameContext = currentFrameContext) => {
"#;

pub const BRIDGE_HELPER_PART_16: &'static str = r#"      const targetWindow = getCurrentWindow(frameContext);
      const state = ensureAlertState(targetWindow);
      if (!state.open) {
        throw new Error("No alert is currently open");
      }
      return state.text || "";
    };

    const sendAlertText = (text, frameContext = currentFrameContext) => {
      const targetWindow = getCurrentWindow(frameContext);
      const state = ensureAlertState(targetWindow);
      if (!state.open) {
        throw new Error("No alert is currently open");
      }
      if (state.type !== "prompt") {
        throw new Error("Alert does not accept text");
      }
      state.promptText = text == null ? null : String(text);
      return null;
    };

    const closeAlert = (accepted, frameContext = currentFrameContext) => {
      const targetWindow = getCurrentWindow(frameContext);
      const state = ensureAlertState(targetWindow);
      if (!state.open) {
        throw new Error("No alert is currently open");
      }
      const result = {
        accepted: !!accepted,
        promptText: state.promptText
      };
      state.open = false;
      state.type = null;
      state.text = "";
      state.defaultValue = null;
      state.promptText = null;
      return result;
    };

    const toFunction = (script, targetWindow) => {
      const trimmed = String(script || "").trim();
      if (!trimmed) {
        return () => null;
      }

      try {
        return targetWindow.eval(`(${trimmed})`);
      } catch (_error) {
"#;

pub const BRIDGE_HELPER_PART_17: &'static str = r#"        return targetWindow.Function(trimmed);
      }
    };

    const run = async (requestId, script, args, asyncMode, frameContext) => {
      patchConsole();
      try {
        setFrameContext(frameContext);
        const targetWindow = getCurrentWindow(frameContext);
        patchDialogs(targetWindow);
        const fn = toFunction(script, targetWindow);
        const resolvedArgs = deserialize(args);
        let value;
        if (asyncMode) {
          value = await new Promise((resolve, reject) => {
            const callback = (result) => resolve(result);
            try {
              fn.apply(targetWindow, [...resolvedArgs, callback]);
            } catch (error) {
              reject(error);
            }
          });
        } else {
          value = await fn.apply(targetWindow, resolvedArgs);
        }
        await emitResult({
          requestId,
          ok: true,
          value: serialize(value)
        });
      } catch (error) {
        await emitResult({
          requestId,
          ok: false,
          error: {
            name: error && error.name ? error.name : "Error",
            message: error && error.message ? error.message : String(error),
            stack: error && error.stack ? error.stack : null
          }
        });
      }
    };

    patchConsole();

    return {
      getElement,
      getCurrentWindow,
      getCurrentDocument,
      findElements,
      findElementsFromShadow,
      validateFrameByIndex,
"#;

pub const BRIDGE_HELPER_PART_18: &'static str = r#"      validateFrameElement,
      getShadowRoot,
      isDisplayed,
      clearElement,
      setElementText,
      dispatchPointerClick,
      performActions,
      getAllCookies,
      getCookie,
      addCookie,
      deleteCookie,
      deleteAllCookies,
      getAlertText,
      sendAlertText,
      closeAlert,
      takeLogs,
      run
    };
  })();
}
"#;

/// The helper script, the concatenation of its parts.
pub open spec fn bridge_helper_text() -> Seq<char> {
    BRIDGE_HELPER_PART_1@
        + BRIDGE_HELPER_PART_2@
        + BRIDGE_HELPER_PART_3@
        + BRIDGE_HELPER_PART_4@
        + BRIDGE_HELPER_PART_5@
        + BRIDGE_HELPER_PART_6@
        + BRIDGE_HELPER_PART_7@
        + BRIDGE_HELPER_PART_8@
        + BRIDGE_HELPER_PART_9@
        + BRIDGE_HELPER_PART_10@
        + BRIDGE_HELPER_PART_11@
        + BRIDGE_HELPER_PART_12@
        + BRIDGE_HELPER_PART_13@
        + BRIDGE_HELPER_PART_14@
        + BRIDGE_HELPER_PART_15@
        + BRIDGE_HELPER_PART_16@
        + BRIDGE_HELPER_PART_17@
        + BRIDGE_HELPER_PART_18@
}

pub fn bridge_helper_script() -> (r: String)
    ensures
        r@ == bridge_helper_text(),
        r@ == BRIDGE_HELPER_PART_1@
            + BRIDGE_HELPER_PART_2@
            + BRIDGE_HELPER_PART_3@
            + BRIDGE_HELPER_PART_4@
            + BRIDGE_HELPER_PART_5@
            + BRIDGE_HELPER_PART_6@
            + BRIDGE_HELPER_PART_7@
            + BRIDGE_HELPER_PART_8@
            + BRIDGE_HELPER_PART_9@
            + BRIDGE_HELPER_PART_10@
            + BRIDGE_HELPER_PART_11@
            + BRIDGE_HELPER_PART_12@
            + BRIDGE_HELPER_PART_13@
            + BRIDGE_HELPER_PART_14@
            + BRIDGE_HELPER_PART_15@
            + BRIDGE_HELPER_PART_16@
            + BRIDGE_HELPER_PART_17@
            + BRIDGE_HELPER_PART_18@,
{
    let mut r = String::from_str(BRIDGE_HELPER_PART_1);
    r.append(BRIDGE_HELPER_PART_2);
    r.append(BRIDGE_HELPER_PART_3);
    r.append(BRIDGE_HELPER_PART_4);
    r.append(BRIDGE_HELPER_PART_5);
    r.append(BRIDGE_HELPER_PART_6);
    r.append(BRIDGE_HELPER_PART_7);
    r.append(BRIDGE_HELPER_PART_8);
    r.append(BRIDGE_HELPER_PART_9);
    r.append(BRIDGE_HELPER_PART_10);
    r.append(BRIDGE_HELPER_PART_11);
    r.append(BRIDGE_HELPER_PART_12);
    r.append(BRIDGE_HELPER_PART_13);
    r.append(BRIDGE_HELPER_PART_14);
    r.append(BRIDGE_HELPER_PART_15);
    r.append(BRIDGE_HELPER_PART_16);
    r.append(BRIDGE_HELPER_PART_17);
    r.append(BRIDGE_HELPER_PART_18);
    r
}

/// A frame on the path from the top-level document to the current browsing context.
pub enum FrameId {
    Index(u64),
    Element(String),
}

pub const FRAME_INDEX_OPEN: &'static str = "{\"kind\":\"index\",\"value\":";
pub const FRAME_ELEMENT_OPEN: &'static str = "{\"kind\":\"element\",\"value\":";
pub const OBJECT_CLOSE: &'static str = "}";
pub const ARRAY_OPEN: &'static str = "[";
pub const ARRAY_CLOSE: &'static str = "]";
pub const ITEM_SEPARATOR: &'static str = ",";

/// The JSON object `{"kind": .., "value": ..}` that describes one frame.
pub open spec fn frame_text(f: FrameId) -> Seq<char> {
    match f {
        FrameId::Index(i) => FRAME_INDEX_OPEN@ + decimal(i as nat) + OBJECT_CLOSE@,
        FrameId::Element(id) => FRAME_ELEMENT_OPEN@ + json_string_literal(id@) + OBJECT_CLOSE@,
    }
}

/// The frame objects of `frames`, separated by commas.
pub open spec fn frame_items_text(frames: Seq<FrameId>) -> Seq<char>
    decreases frames.len(),
{
    if frames.len() == 0 {
        Seq::empty()
    } else if frames.len() == 1 {
        frame_text(frames[0])
    } else {
        frame_items_text(frames.drop_last()) + ITEM_SEPARATOR@ + frame_text(frames.last())
    }
}

/// The JSON array that describes the frame context.
pub open spec fn frame_context_text(frames: Seq<FrameId>) -> Seq<char> {
    ARRAY_OPEN@ + frame_items_text(frames) + ARRAY_CLOSE@
}

/// Serialises the frame context as a JSON array of `{"kind", "value"}` objects.
pub fn serialize_frame_context(frame_context: &Vec<FrameId>) -> (r: String)
    ensures
        r@ == frame_context_text(frame_context@),
{
    let mut items = String::new();
    let mut i: usize = 0;
    while i < frame_context.len()
        invariant
            i <= frame_context@.len(),
            items@ == frame_items_text(frame_context@.take(i as int)),
        decreases frame_context@.len() - i,
    {
        assert(frame_context@.take(i + 1).drop_last() == frame_context@.take(i as int));
        if i > 0 {
            items.append(ITEM_SEPARATOR);
        }
        match &frame_context[i] {
            FrameId::Index(index) => {
                items.append(FRAME_INDEX_OPEN);
                let digits = u64_to_decimal(*index);
                items.append(digits.as_str());
                items.append(OBJECT_CLOSE);
            },
            FrameId::Element(element_id) => {
                let encoded = json_text(element_id.as_str());
                items.append(FRAME_ELEMENT_OPEN);
                items.append(encoded.as_str());
                items.append(OBJECT_CLOSE);
            },
        }
        i = i + 1;
    }
    assert(frame_context@.take(frame_context@.len() as int) == frame_context@);
    let mut text = String::from_str(ARRAY_OPEN);
    text.append(items.as_str());
    text.append(ARRAY_CLOSE);
    text
}

/// The JSON string literal of `s`.
fn json_text(s: &str) -> (r: String)
    ensures
        r@ == json_string_literal(s@),
{
    match string_to_json(s) {
        Ok(t) => t,
        Err(_) => String::from_str(EMPTY_STRING_JSON),
    }
}

pub const EVAL_PREFIX: &'static str = "\n(() => {\n  ";
pub const EVAL_RUN_OPEN: &'static str = "\n  window.__bitfunWd.run(";
pub const EVAL_ARG_SEPARATOR: &'static str = ", ";
pub const EVAL_SUFFIX: &'static str = ");\n})();\n";
pub const INVALID_REQUEST_JSON: &'static str = "\"invalid-request\"";
pub const EMPTY_STRING_JSON: &'static str = "\"\"";
pub const EMPTY_ARRAY_JSON: &'static str = "[]";
pub const TRUE_JSON: &'static str = "true";
pub const FALSE_JSON: &'static str = "false";

/// The script injected into the webview: it installs the helper (once) and asks it to
/// run the script, passing the request id and the script as JSON string literals, the
/// arguments as a JSON array, the mode and the frame context.
pub open spec fn eval_script_text(
    request_id_json: Seq<char>,
    script_json: Seq<char>,
    args_json: Seq<char>,
    async_mode: bool,
    frame_context_json: Seq<char>,
) -> Seq<char> {
    EVAL_PREFIX@ + bridge_helper_text() + EVAL_RUN_OPEN@
        + request_id_json + EVAL_ARG_SEPARATOR@
        + script_json + EVAL_ARG_SEPARATOR@
        + args_json + EVAL_ARG_SEPARATOR@
        + (if async_mode { TRUE_JSON@ } else { FALSE_JSON@ }) + EVAL_ARG_SEPARATOR@
        + frame_context_json + EVAL_SUFFIX@
}

/// The injected script carries the whole helper, every one of its parts in order and
/// each once, between the opening of the wrapper function and the `run(..)` call, and
/// then the run call with its five arguments.
pub proof fn lemma_injected_script_carries_whole_helper(
    request_id_json: Seq<char>,
    script_json: Seq<char>,
    args_json: Seq<char>,
    async_mode: bool,
    frame_context_json: Seq<char>,
)
    ensures
        eval_script_text(request_id_json, script_json, args_json, async_mode, frame_context_json)
            == EVAL_PREFIX@ + (BRIDGE_HELPER_PART_1@
            + BRIDGE_HELPER_PART_2@
            + BRIDGE_HELPER_PART_3@
            + BRIDGE_HELPER_PART_4@
            + BRIDGE_HELPER_PART_5@
            + BRIDGE_HELPER_PART_6@
            + BRIDGE_HELPER_PART_7@
            + BRIDGE_HELPER_PART_8@
            + BRIDGE_HELPER_PART_9@
            + BRIDGE_HELPER_PART_10@
            + BRIDGE_HELPER_PART_11@
            + BRIDGE_HELPER_PART_12@
            + BRIDGE_HELPER_PART_13@
            + BRIDGE_HELPER_PART_14@
            + BRIDGE_HELPER_PART_15@
            + BRIDGE_HELPER_PART_16@
            + BRIDGE_HELPER_PART_17@
            + BRIDGE_HELPER_PART_18@) + EVAL_RUN_OPEN@
            + request_id_json + EVAL_ARG_SEPARATOR@ + script_json + EVAL_ARG_SEPARATOR@ + args_json
            + EVAL_ARG_SEPARATOR@ + (if async_mode { TRUE_JSON@ } else { FALSE_JSON@ }) + EVAL_ARG_SEPARATOR@
            + frame_context_json + EVAL_SUFFIX@,
{
}

/// Builds the script that runs `script` in the page.
pub fn build_bridge_eval_script(
    request_id: &str,
    script: &str,
    args: &[serde_json::Value],
    async_mode: bool,
    frame_context: &Vec<FrameId>,
) -> (r: String)
    ensures
        r@ == eval_script_text(
            json_string_literal(request_id@),
            json_string_literal(script@),
            json_array_text(args@),
            async_mode,
            frame_context_text(frame_context@),
        ),
{
    let request_id_json = match string_to_json(request_id) {
        Ok(t) => t,
        Err(_) => String::from_str(INVALID_REQUEST_JSON),
    };
    let script_json = json_text(script);
    let args_json = match values_to_json(args) {
        Ok(t) => t,
        Err(_) => String::from_str(EMPTY_ARRAY_JSON),
    };
    let frame_context_json = serialize_frame_context(frame_context);
    let mut out = String::from_str(EVAL_PREFIX);
    let helper = bridge_helper_script();
    out.append(helper.as_str());
    out.append(EVAL_RUN_OPEN);
    out.append(request_id_json.as_str());
    out.append(EVAL_ARG_SEPARATOR);
    out.append(script_json.as_str());
    out.append(EVAL_ARG_SEPARATOR);
    out.append(args_json.as_str());
    out.append(EVAL_ARG_SEPARATOR);
    if async_mode {
        out.append(TRUE_JSON);
    } else {
        out.append(FALSE_JSON);
    }
    out.append(EVAL_ARG_SEPARATOR);
    out.append(frame_context_json.as_str());
    out.append(EVAL_SUFFIX);
    out
}

/// Two injected scripts that differ only in the script they run agree outside the
/// second argument of the `run(..)` call, and that argument is in each a single JSON
/// string literal, closed only by its last character and decoding back to its script.
pub proof fn lemma_script_stays_in_its_literal(
    request_id: Seq<char>,
    script1: Seq<char>,
    script2: Seq<char>,
    args: Seq<serde_json::Value>,
    async_mode: bool,
    frames: Seq<FrameId>,
)
    ensures
        ({
            let head = EVAL_PREFIX@ + bridge_helper_text() + EVAL_RUN_OPEN@ + json_string_literal(request_id)
                + EVAL_ARG_SEPARATOR@;
            let tail = EVAL_ARG_SEPARATOR@ + json_array_text(args) + EVAL_ARG_SEPARATOR@
                + (if async_mode { TRUE_JSON@ } else { FALSE_JSON@ }) + EVAL_ARG_SEPARATOR@
                + frame_context_text(frames) + EVAL_SUFFIX@;
            &&& eval_script_text(json_string_literal(request_id), json_string_literal(script1), json_array_text(args), async_mode, frame_context_text(frames))
                == head + json_string_literal(script1) + tail
            &&& eval_script_text(json_string_literal(request_id), json_string_literal(script2), json_array_text(args), async_mode, frame_context_text(frames))
                == head + json_string_literal(script2) + tail
            &&& literal_close(json_string_literal(script1), 1) == json_string_literal(script1).len() - 1
            &&& literal_close(json_string_literal(script2), 1) == json_string_literal(script2).len() - 1
            &&& unescaped(json_string_literal(script1).subrange(1, json_string_literal(script1).len() - 1)) == script1
            &&& unescaped(json_string_literal(script2).subrange(1, json_string_literal(script2).len() - 1)) == script2
        }),
{
    lemma_json_string_literal_sealed(script1);
    lemma_json_string_literal_sealed(script2);
    let head = EVAL_PREFIX@ + bridge_helper_text() + EVAL_RUN_OPEN@ + json_string_literal(request_id)
        + EVAL_ARG_SEPARATOR@;
    let tail = EVAL_ARG_SEPARATOR@ + json_array_text(args) + EVAL_ARG_SEPARATOR@
        + (if async_mode { TRUE_JSON@ } else { FALSE_JSON@ }) + EVAL_ARG_SEPARATOR@
        + frame_context_text(frames) + EVAL_SUFFIX@;
    assert(eval_script_text(json_string_literal(request_id), json_string_literal(script1), json_array_text(args), async_mode, frame_context_text(frames))
        =~= head + json_string_literal(script1) + tail);
    assert(eval_script_text(json_string_literal(request_id), json_string_literal(script2), json_array_text(args), async_mode, frame_context_text(frames))
        =~= head + json_string_literal(script2) + tail);
}

/// The requests that wait for the page's answer, each under its request id.
pub struct PendingRequests<S> {
    entries: Vec<(String, S)>,
}

/// No request id occurs twice.
pub open spec fn unique_ids<S>(entries: Seq<(String, S)>) -> bool {
    forall|i: int, j: int|
        0 <= i < entries.len() && 0 <= j < entries.len() && i != j ==> #[trigger] entries[i].0@ != #[trigger] entries[j].0@
}

/// Whether `id` is the request id of an entry.
pub open spec fn has_id<S>(entries: Seq<(String, S)>, id: Seq<char>) -> bool {
    exists|i: int| 0 <= i < entries.len() && #[trigger] entries[i].0@ == id
}

/// The position of the entry with request id `id`.
pub open spec fn position_of<S>(entries: Seq<(String, S)>, id: Seq<char>) -> int {
    choose|i: int| 0 <= i < entries.len() && #[trigger] entries[i].0@ == id
}

/// The entries as a map from request id to waiting party.
pub open spec fn entries_map<S>(entries: Seq<(String, S)>) -> Map<Seq<char>, S> {
    Map::new(|id: Seq<char>| has_id(entries, id), |id: Seq<char>| entries[position_of(entries, id)].1)
}

impl<S> View for PendingRequests<S> {
    type V = Map<Seq<char>, S>;

    closed spec fn view(&self) -> Map<Seq<char>, S> {
        entries_map(self.entries@)
    }
}

/// With distinct ids, the entry found for an id is the one at `i` when `i` holds it.
proof fn lemma_position_unique<S>(entries: Seq<(String, S)>, i: int)
    requires
        unique_ids(entries),
        0 <= i < entries.len(),
    ensures
        has_id(entries, entries[i].0@),
        position_of(entries, entries[i].0@) == i,
{
    let id = entries[i].0@;
    assert(entries[i].0@ == id);
    let p = position_of(entries, id);
    assert(entries[p].0@ == id);
}

/// Removing the entry at `i` removes its id from the map and keeps the others.
proof fn lemma_remove_entry<S>(entries: Seq<(String, S)>, i: int)
    requires
        unique_ids(entries),
        0 <= i < entries.len(),
    ensures
        unique_ids(entries.remove(i)),
        entries_map(entries.remove(i)) == entries_map(entries).remove(entries[i].0@),
{
    let rest = entries.remove(i);
    let id = entries[i].0@;
    assert forall|a: int, b: int|
        0 <= a < rest.len() && 0 <= b < rest.len() && a != b implies #[trigger] rest[a].0@ != #[trigger] rest[b].0@ by {
        let oa = if a < i { a } else { a + 1 };
        let ob = if b < i { b } else { b + 1 };
        assert(rest[a] == entries[oa]);
        assert(rest[b] == entries[ob]);
    }
    let m1 = entries_map(rest);
    let m2 = entries_map(entries).remove(id);
    assert forall|k: Seq<char>| #[trigger] m1.dom().contains(k) <==> m2.dom().contains(k) by {
        if has_id(rest, k) {
            let a = choose|a: int| 0 <= a < rest.len() && #[trigger] rest[a].0@ == k;
            let oa = if a < i { a } else { a + 1 };
            assert(rest[a] == entries[oa]);
            assert(has_id(entries, k));
            assert(k != id);
        }
        if has_id(entries, k) && k != id {
            let o = choose|o: int| 0 <= o < entries.len() && #[trigger] entries[o].0@ == k;
            assert(o != i);
            let a = if o < i { o } else { o - 1 };
            assert(rest[a] == entries[o]);
            assert(has_id(rest, k));
        }
    }
    assert forall|k: Seq<char>| #[trigger] m1.dom().contains(k) implies m1[k] == m2[k] by {
        let a = position_of(rest, k);
        lemma_position_unique(rest, a);
        let oa = if a < i { a } else { a + 1 };
        assert(rest[a] == entries[oa]);
        lemma_position_unique(entries, oa);
    }
    assert(m1 == m2);
}

/// Appending an entry with a new id adds it to the map.
proof fn lemma_push_entry<S>(entries: Seq<(String, S)>, e: (String, S))
    requires
        unique_ids(entries),
        !has_id(entries, e.0@),
    ensures
        unique_ids(entries.push(e)),
        entries_map(entries.push(e)) == entries_map(entries).insert(e.0@, e.1),
{
    let all = entries.push(e);
    let n = entries.len() as int;
    assert forall|a: int, b: int|
        0 <= a < all.len() && 0 <= b < all.len() && a != b implies #[trigger] all[a].0@ != #[trigger] all[b].0@ by {
        if a < n && b < n {
            assert(all[a] == entries[a]);
            assert(all[b] == entries[b]);
        } else if a < n {
            assert(all[a] == entries[a]);
        } else {
            assert(all[b] == entries[b]);
        }
    }
    let m1 = entries_map(all);
    let m2 = entries_map(entries).insert(e.0@, e.1);
    assert forall|k: Seq<char>| #[trigger] m1.dom().contains(k) <==> m2.dom().contains(k) by {
        if has_id(all, k) && k != e.0@ {
            let a = choose|a: int| 0 <= a < all.len() && #[trigger] all[a].0@ == k;
            assert(a < n);
            assert(all[a] == entries[a]);
        }
        if has_id(entries, k) {
            let a = choose|a: int| 0 <= a < entries.len() && #[trigger] entries[a].0@ == k;
            assert(all[a] == entries[a]);
        }
        if k == e.0@ {
            assert(all[n].0@ == k);
        }
    }
    assert forall|k: Seq<char>| #[trigger] m1.dom().contains(k) implies m1[k] == m2[k] by {
        let a = position_of(all, k);
        lemma_position_unique(all, a);
        if a < n {
            assert(all[a] == entries[a]);
            lemma_position_unique(entries, a);
        }
    }
    assert(m1 == m2);
}

impl<S> PendingRequests<S> {
    #[verifier::type_invariant]
    spec fn ids_are_unique(self) -> bool {
        unique_ids(self.entries@)
    }

    /// An empty table.
    pub fn new() -> (r: PendingRequests<S>)
        ensures
            r@ == Map::<Seq<char>, S>::empty(),
    {
        let r = PendingRequests { entries: Vec::new() };
        assert(r@ == Map::<Seq<char>, S>::empty());
        r
    }

    /// The number of waiting requests.
    pub fn len(&self) -> (n: usize)
        ensures
            n == self@.dom().len(),
    {
        proof {
            use_type_invariant(self);
            self.lemma_dom_len();
        }
        self.entries.len()
    }

    proof fn lemma_dom_len(&self)
        requires
            unique_ids(self.entries@),
        ensures
            self@.dom().len() == self.entries@.len(),
            self@.dom().finite(),
    {
        let keys = self.entries@.map_values(|e: (String, S)| e.0@);
        assert(keys.no_duplicates()) by {
            assert forall|a: int, b: int| 0 <= a < keys.len() && 0 <= b < keys.len() && a != b implies keys[a] != keys[b] by {
                assert(self.entries@[a].0@ != self.entries@[b].0@);
            }
        }
        assert(self@.dom() =~= keys.to_set()) by {
            assert forall|k: Seq<char>| self@.dom().contains(k) <==> keys.to_set().contains(k) by {
                if has_id(self.entries@, k) {
                    let a = choose|a: int| 0 <= a < self.entries@.len() && #[trigger] self.entries@[a].0@ == k;
                    assert(keys[a] == k);
                }
                if keys.contains(k) {
                    let a = choose|a: int| 0 <= a < keys.len() && keys[a] == k;
                    assert(self.entries@[a].0@ == k);
                }
            }
        }
        keys.unique_seq_to_set();
    }

    /// The position of the entry with `request_id`, if any.
    fn find(&self, request_id: &str) -> (r: Option<usize>)
        ensures
            match r {
                Some(i) => i < self.entries@.len() && self.entries@[i as int].0@ == request_id@,
                None => !has_id(self.entries@, request_id@),
            },
    {
        let mut i: usize = 0;
        while i < self.entries.len()
            invariant
                i <= self.entries@.len(),
                forall|j: int| 0 <= j < i ==> #[trigger] self.entries@[j].0@ != request_id@,
            decreases self.entries@.len() - i,
        {
            if str_eq(self.entries[i].0.as_str(), request_id) {
                return Some(i);
            }
            i = i + 1;
        }
        None
    }

    /// Registers `sender` as waiting for the answer to `request_id`; a party that was
    /// waiting under the same id is handed back.
    pub fn insert(&mut self, request_id: String, sender: S) -> (previous: Option<S>)
        ensures
            final(self)@ == old(self)@.insert(request_id@, sender),
            previous == (if old(self)@.dom().contains(request_id@) {
                Some(old(self)@[request_id@])
            } else {
                None
            }),
    {
        proof {
            use_type_invariant(&*self);
        }
        let found = self.find(request_id.as_str());
        let mut entries: Vec<(String, S)> = Vec::new();
        std::mem::swap(&mut entries, &mut self.entries);
        let ghost before = entries@;
        let previous = match found {
            Some(i) => {
                proof {
                    lemma_position_unique(before, i as int);
                    lemma_remove_entry(before, i as int);
                }
                let (_, old_sender) = entries.remove(i);
                Some(old_sender)
            },
            None => None,
        };
        proof {
            assert(!has_id(entries@, request_id@)) by {
                if has_id(entries@, request_id@) {
                    let a = choose|a: int| 0 <= a < entries@.len() && #[trigger] entries@[a].0@ == request_id@;
                    assert(entries_map(entries@).dom().contains(request_id@));
                }
            }
            lemma_push_entry(entries@, (request_id, sender));
        }
        entries.push((request_id, sender));
        self.entries = entries;
        proof {
            assert(self@ =~= old(self)@.insert(request_id@, sender));
        }
        previous
    }

    /// Hands back the party waiting for `request_id`, and forgets it.
    pub fn take(&mut self, request_id: &str) -> (r: Option<S>)
        ensures
            final(self)@ == old(self)@.remove(request_id@),
            r == (if old(self)@.dom().contains(request_id@) {
                Some(old(self)@[request_id@])
            } else {
                None
            }),
    {
        proof {
            use_type_invariant(&*self);
        }
        match self.find(request_id) {
            Some(i) => {
                let mut entries: Vec<(String, S)> = Vec::new();
                std::mem::swap(&mut entries, &mut self.entries);
                let ghost before = entries@;
                proof {
                    lemma_position_unique(before, i as int);
                    lemma_remove_entry(before, i as int);
                }
                let (_, sender) = entries.remove(i);
                self.entries = entries;
                Some(sender)
            },
            None => {
                proof {
                    assert(old(self)@.remove(request_id@) =~= old(self)@);
                }
                None
            },
        }
    }
}

/// Forgets the request `request_id`, whose answer is no longer awaited.
pub fn remove_pending_request<S>(pending: &mut PendingRequests<S>, request_id: &str)
    ensures
        final(pending)@ == old(pending)@.remove(request_id@),
{
    let _ = pending.take(request_id);
}

/// A request registered under a new id is answered to the party registered with it;
/// once taken (answered or given up), it is gone, so no second answer reaches anyone,
/// and the table is as it was before the request was registered.
pub proof fn lemma_register_then_remove<S>(table: Map<Seq<char>, S>, request_id: Seq<char>, sender: S)
    requires
        !table.dom().contains(request_id),
    ensures
        table.insert(request_id, sender).dom().contains(request_id),
        table.insert(request_id, sender)[request_id] == sender,
        !table.insert(request_id, sender).remove(request_id).dom().contains(request_id),
        table.insert(request_id, sender).remove(request_id) == table,
{
    assert(table.insert(request_id, sender).remove(request_id) =~= table);
}

/// The error the page reported for a failed script.
pub struct BridgeError {
    pub message: Option<String>,
    pub stack: Option<String>,
}

/// The page's answer to a script, as sent on the bridge event.
pub struct BridgeResponse<V> {
    pub request_id: String,
    pub ok: bool,
    pub value: Option<V>,
    pub error: Option<BridgeError>,
}

/// Hands a response to the party that waits for its request id, and forgets that
/// request; `None` (and the table unchanged) when nobody waits for it.
pub fn route_bridge_response<S, V>(pending: &mut PendingRequests<S>, response: BridgeResponse<V>) -> (r: Option<(S, BridgeResponse<V>)>)
    ensures
        final(pending)@ == old(pending)@.remove(response.request_id@),
        match r {
            Some((sender, delivered)) => old(pending)@.dom().contains(response.request_id@)
                && sender == old(pending)@[response.request_id@] && delivered == response,
            None => !old(pending)@.dom().contains(response.request_id@),
        },
{
    match pending.take(response.request_id.as_str()) {
        Some(sender) => Some((sender, response)),
        None => None,
    }
}

/// No script is given less time than this.
pub const MINIMUM_SCRIPT_TIMEOUT_MS: u64 = 5000;

/// How long to wait for the page's answer: the session's script timeout, but at least
/// five seconds.
pub fn script_timeout_ms(session_script_timeout: u64) -> (r: u64)
    ensures
        r == (if session_script_timeout >= MINIMUM_SCRIPT_TIMEOUT_MS { session_script_timeout } else { MINIMUM_SCRIPT_TIMEOUT_MS }),
{
    if session_script_timeout >= MINIMUM_SCRIPT_TIMEOUT_MS {
        session_script_timeout
    } else {
        MINIMUM_SCRIPT_TIMEOUT_MS
    }
}

pub const UNKNOWN_JAVASCRIPT_ERROR: &'static str = "Unknown JavaScript error";
pub const EVAL_FAILED_PREFIX: &'static str = "Failed to evaluate script: ";
pub const TIMED_OUT_PREFIX: &'static str = "Script timed out after ";
pub const MILLISECONDS_SUFFIX: &'static str = "ms";
pub const CHANNEL_CLOSED_MESSAGE: &'static str = "Bridge response channel closed unexpectedly";
pub const LOCK_FAILED_MESSAGE: &'static str = "Failed to lock pending request map";
pub const WEBVIEW_NOT_FOUND_PREFIX: &'static str = "Webview not found: ";

/// `r` is the result of a script whose page answered `response`: the value when it
/// succeeded (`None` standing for JSON `null`), else a JavaScript error with the page's
/// message (or "Unknown JavaScript error") and stack trace.
pub open spec fn answer_result<V>(response: BridgeResponse<V>, r: Result<Option<V>, WebDriverError>) -> bool {
    if response.ok {
        r == Ok::<Option<V>, WebDriverError>(response.value)
    } else {
        r matches Err(e) && e.kind == ErrorKind::JavascriptError && match response.error {
            Some(err) => e.stacktrace == err.stack && match err.message {
                Some(m) => e.message@ == m@,
                None => e.message@ == UNKNOWN_JAVASCRIPT_ERROR@,
            },
            None => e.stacktrace is None && e.message@ == UNKNOWN_JAVASCRIPT_ERROR@,
        }
    }
}

/// The result of a script from the page's answer.
pub fn bridge_response_outcome<V>(response: BridgeResponse<V>) -> (r: Result<Option<V>, WebDriverError>)
    ensures
        answer_result(response, r),
{
    if response.ok {
        return Ok(response.value);
    }
    match response.error {
        Some(err) => {
            let message = match err.message {
                Some(m) => m,
                None => String::from_str(UNKNOWN_JAVASCRIPT_ERROR),
            };
            Err(WebDriverError::javascript_error(message, err.stack))
        },
        None => Err(WebDriverError::javascript_error(String::from_str(UNKNOWN_JAVASCRIPT_ERROR), None)),
    }
}

/// What became of a script that was handed to the webview.
pub enum ScriptEvent<V> {
    /// The webview refused to evaluate it, with this error text.
    EvalFailed(String),
    /// No answer came within the timeout.
    TimedOut,
    /// The waiting channel was dropped without an answer.
    ChannelClosed,
    /// The page answered.
    Answered(BridgeResponse<V>),
}

/// The result of a script once its fate is known. When evaluation failed or the
/// timeout passed, the request is forgotten.
pub fn settle_script<S, V>(
    pending: &mut PendingRequests<S>,
    request_id: &str,
    timeout_ms: u64,
    event: ScriptEvent<V>,
) -> (r: Result<Option<V>, WebDriverError>)
    ensures
        match event {
            ScriptEvent::EvalFailed(error) => final(pending)@ == old(pending)@.remove(request_id@)
                && failed_with(r, ErrorKind::JavascriptError, EVAL_FAILED_PREFIX@ + error@),
            ScriptEvent::TimedOut => final(pending)@ == old(pending)@.remove(request_id@)
                && failed_with(r, ErrorKind::Timeout, TIMED_OUT_PREFIX@ + decimal(timeout_ms as nat) + MILLISECONDS_SUFFIX@),
            ScriptEvent::ChannelClosed => final(pending)@ == old(pending)@
                && failed_with(r, ErrorKind::UnknownError, CHANNEL_CLOSED_MESSAGE@),
            ScriptEvent::Answered(response) => final(pending)@ == old(pending)@ && answer_result(response, r),
        },
{
    match event {
        ScriptEvent::EvalFailed(error) => {
            remove_pending_request(pending, request_id);
            let mut message = String::from_str(EVAL_FAILED_PREFIX);
            message.append(error.as_str());
            Err(WebDriverError::javascript_error(message, None))
        },
        ScriptEvent::TimedOut => {
            remove_pending_request(pending, request_id);
            let mut message = String::from_str(TIMED_OUT_PREFIX);
            let digits = u64_to_decimal(timeout_ms);
            message.append(digits.as_str());
            message.append(MILLISECONDS_SUFFIX);
            Err(WebDriverError::new(ErrorKind::Timeout, message))
        },
        ScriptEvent::ChannelClosed => Err(WebDriverError::from_text(ErrorKind::UnknownError, CHANNEL_CLOSED_MESSAGE)),
        ScriptEvent::Answered(response) => bridge_response_outcome(response),
    }
}

/// The error for a window label that has no webview.
pub fn webview_not_found(label: &str) -> (r: WebDriverError)
    ensures
        failed_with(Err::<(), WebDriverError>(r), ErrorKind::NoSuchWindow, WEBVIEW_NOT_FOUND_PREFIX@ + label@),
{
    let mut message = String::from_str(WEBVIEW_NOT_FOUND_PREFIX);
    message.append(label);
    WebDriverError::new(ErrorKind::NoSuchWindow, message)
}

/// The error for a table of pending requests that cannot be locked.
pub fn pending_table_unavailable() -> (r: WebDriverError)
    ensures
        r.kind == ErrorKind::UnknownError,
        r.message@ == LOCK_FAILED_MESSAGE@,
        r.stacktrace is None,
{
    WebDriverError::from_text(ErrorKind::UnknownError, LOCK_FAILED_MESSAGE)
}

} // verus!
