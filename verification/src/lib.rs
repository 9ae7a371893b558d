//! The concurrency core of a voice-chat bot: a per-guild join coordinator, a
//! fixed-interval task runner and the statistics broadcaster that runs on it,
//! with the decisions of the bot's three main commands.
//!
//! Nothing in this crate performs I/O. Each component is a state machine or a
//! pure function: the caller performs the network call, the sleep or the
//! reply, and hands the library what came of it.

pub mod bot_list_updater;
pub mod commands;
pub mod coordinator;
pub mod decimal;
pub mod json;
pub mod looper;
pub mod registry;
