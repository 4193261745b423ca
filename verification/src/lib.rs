//! Core logic of a mouse and keyboard auto-clicker: configuration
//! validation, key-name parsing, input-event decisions and the armed state
//! of both clickers.

pub mod config;
pub mod controls;
pub mod input;
pub mod language;
pub mod laws;
pub mod runtime;
pub mod tables;
pub mod text;
