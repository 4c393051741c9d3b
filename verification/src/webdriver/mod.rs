//! The embedded WebDriver: errors, the script bridge into the webview, and the
//! decisions of the command handlers.

pub mod error;
pub mod bridge;
pub mod handlers;
