//! A command-line assistant core: translates natural-language requests into
//! shell commands through an LLM backend, and mediates their execution.
//!
//! The crate holds the verified logic of the assistant: the action model the
//! LLM's replies are parsed into, the pure parts of the process executor, the
//! conversation context, the reply-payload extraction of the LLM gateway, and
//! the turn controller that drives one user turn through these pieces.
//! All I/O (the network call, process spawning, the terminal) lives outside,
//! in a thin shell that feeds plain values in and carries effects out.

pub mod action;
pub mod agent;
pub mod arguments;
pub mod cache;
pub mod configurations;
pub mod context;
pub mod errors;
pub mod executor;
pub mod explain;
pub mod gateway;
pub mod information;
pub mod json;
pub mod traits;
pub mod turn;
