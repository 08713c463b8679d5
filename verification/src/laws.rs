//! What the operations of the library are for, stated apart from how they are defined.
pub mod agent;
pub mod api;
pub mod commands;
pub mod config;
pub mod crypto;
pub mod daemon;
pub mod encoding;
pub mod faults;
pub mod hub;
pub mod number;
pub mod storage;
pub mod text;
pub mod tui;
pub mod vault;
