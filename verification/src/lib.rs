//! Decision core of a social-media bot.
//!
//! The bot generates posts and replies through a language model, publishes
//! them to a social platform, and relays chat messages.  All network calls
//! live outside this crate; what is verified here is everything the bot
//! decides on its own: how a model answer is classified, which notifications
//! are still pending, how the memory log and the deduplication set evolve,
//! and how the fixed request parameters are assembled.

use vstd::prelude::*;

pub mod agent;
pub mod image;
pub mod runtime;
pub mod text;

verus! {

} // verus!
