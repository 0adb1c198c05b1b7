//! ghlog: view a GitHub user's recent activity.
//!
//! The library holds the rules of the tool: which events are collected and how
//! many, how each event is worded, and how the worded events are rendered as
//! plain text, Markdown, ANSI-coloured terminal text or an HTML page.

pub mod cli;
pub mod cmds;
pub mod domain;
pub mod output;
pub mod service;
pub mod text;
