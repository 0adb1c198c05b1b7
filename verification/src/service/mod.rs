//! Talking to GitHub: which pages of events to ask for, what to keep from
//! them, and what GitHub's answers mean.

pub mod github;
