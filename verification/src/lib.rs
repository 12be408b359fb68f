//! A bridge between a group chat and an issue tracker: chat commands open
//! issues, and issue events are relayed into the chat threads that follow them.
//!
//! The library decides; the host performs. Every function here takes what was
//! received as plain values and answers with the requests to send.

pub mod app_conf;
pub mod braid;
pub mod commands;
pub mod conf;
pub mod github;
pub mod handler;
pub mod ids;
pub mod json;
pub mod message;
pub mod msgpack;
pub mod text;
pub mod tracking;
