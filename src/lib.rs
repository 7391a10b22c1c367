//! Picks a trading card from a pre-fetched corpus, avoiding cards that were
//! posted before, and composes the caption and alt text of its post.

pub mod scryfall;
pub mod selector;
pub mod dedup;
pub mod engine;
