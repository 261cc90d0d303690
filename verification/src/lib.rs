//! A lightweight, opt-in tracing facility for development builds.
//!
//! Log output is nested and indented: a *group* opens a visually bracketed
//! block one indentation level deep, and every line written while the group
//! is open is indented accordingly. Output can be filtered per call site by
//! substring match of a location tag (conventionally `"file:line"`) against
//! a runtime-configurable filter string.
//!
//! The crate is a passive engine: it decides whether a call site is enabled,
//! tracks the current nesting depth, and renders each output line as a
//! `String`. Actually writing the rendered lines to a terminal or a host
//! console, holding the process-wide engine state, and capturing call-site
//! locations are left to a thin layer around this crate.

pub mod filter;
pub mod format;
pub mod level;
pub mod logger;

pub use filter::{contains_substring, Filter};
pub use format::{group_close_text, group_open_text, indent_string, message_text, render_block, value_text};
pub use level::LevelTracker;
pub use logger::{GroupGuard, Logger};
