//! Chat-driven timed mode overrides for a host editor.
//!
//! A remote chat audience triggers temporary, timed behavioral overrides
//! ("modes") inside a long-running host application. This crate holds the
//! verified core: the chat-command parser, the cross-thread bridge model,
//! the timed multi-mode engine, and the status-overlay render contract.
//! Host-side effects (windows, buffers, commands) are described as plain
//! action values and performed by the unverified glue around the library.

pub mod bridge;
pub mod chat;
pub mod commands;
pub mod config;
pub mod engine;
pub mod host;
pub mod overlay;
pub mod text;
