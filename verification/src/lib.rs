//! Verified core of the minicode terminal UI: text processing, modal state machines and
//! formatting helpers.

pub mod json;
pub mod records;
pub mod text;
pub mod tools;
pub mod ui;
