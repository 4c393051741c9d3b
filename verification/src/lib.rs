//! Verified core logic of the BitFun relay server, persona bootstrap and embedded WebDriver.

pub mod text;
pub mod json;
pub mod persona;
pub mod webdriver;
pub mod relay;
