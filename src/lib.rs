//! Profile capture, command replies and a thin key/value store client for a
//! small community chat bot.

pub mod text;
pub mod profile;
pub mod commands;
pub mod store;
pub mod config;
