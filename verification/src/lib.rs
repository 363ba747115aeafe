//! Momo, a chat companion that speaks as a tsundere cyber cat.
//!
//! The library holds the bot's decisions: what it answers, when it speaks up
//! on its own, how it remembers members and messages, and how it builds the
//! requests it sends to its language model.
pub mod text;
pub mod prompts;
pub mod utils;
pub mod config;
pub mod grok;
pub mod types;
pub mod state;
pub mod members;
pub mod tracking;
pub mod history;
pub mod passive;
pub mod media;
pub mod server;
pub mod commands;
pub mod db;
pub mod retry;
pub mod active;
pub mod handler;
pub mod flow;
pub mod laws;
