//! Host-side logic of a desktop live-chat client.

pub mod auth_error;
pub mod batch;
pub mod commands;
pub mod control;
pub mod document;
pub mod errors;
pub mod events;
pub mod framing;
pub mod handles;
pub mod json;
pub mod manager;
pub mod pending;
pub mod sender;
pub mod store;
pub mod text;
pub mod tokens;
pub mod written;
