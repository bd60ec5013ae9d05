//! Verified core of a local command-correction assistant: the edit-operation
//! language, prompt assembly, cache validity and download verification, the
//! greedy generation loop, and the daemon's and client's decisions.

pub mod text;
pub mod edit;
pub mod decimal;
pub mod prompt;
pub mod download;
pub mod cache;
pub mod generate;
pub mod daemon;
pub mod dispatch;
pub mod config;
pub mod service;
pub mod shell;
pub mod protocol;
