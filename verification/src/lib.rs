//! Bitwarden terminal client and SSH agent: the verified core.
pub mod agent;
pub mod api;
pub mod cli;
pub mod commands;
pub mod config;
pub mod crypto;
pub mod daemon;
pub mod json;
pub mod laws;
pub mod number;
pub mod primitives;
pub mod storage;
pub mod text;
pub mod tree;
pub mod tui;
pub mod url;
