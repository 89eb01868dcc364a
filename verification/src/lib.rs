//! Conversational intake flow for a print-shop ordering bot.
//!
//! The library tracks, per customer conversation, a session state machine
//! that collects a paper type, a print size and the uploaded images, then
//! emits a finished order.  It covers the session entity and its
//! transition rules, the session store, the event dispatcher that drives
//! transitions, and the timeout-driven sweep that re-prompts or evicts
//! stalled sessions.  The webhook server, the real messaging transport and
//! the catalog loader live outside, around this crate.

pub mod config;
pub mod data_types;
pub mod error;
pub mod hook_types;
pub mod message_handler;
pub mod paper;
pub mod prompt;
pub mod repository;
pub mod session;
pub mod text;
pub mod timestamp;
pub mod transport;
pub mod wa_types;
