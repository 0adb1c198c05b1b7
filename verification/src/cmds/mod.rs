//! The tool's commands, checked, and how a run proceeds.

pub mod command;
pub mod run;
