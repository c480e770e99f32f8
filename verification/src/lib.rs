//! Core of a real-time multi-user chat system.
//!
//! The library holds the verified logic: the append-only chat log and its
//! pagination, the dispatcher that applies client messages and fans entries
//! out to registered sessions, the per-connection actor state machine with
//! its close handshake, the modal editor engine of the terminal client, and
//! the identifier-lint helpers. Transport establishment, terminal rendering
//! and message encoding live outside, behind plain-value interfaces.

pub mod actor;
pub mod chat;
pub mod chat_log;
pub mod comms;
pub mod dispatch;
pub mod lint;
pub mod message;
pub mod registry;
mod text;
pub mod tui;
pub mod vim;
