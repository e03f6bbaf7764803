//! Starboard curation core for a chat bot.
//!
//! The library keeps, for every source message in a guild, a derived
//! "curated repost" whose existence and content track the message's
//! reaction tally. It is split into pure, fully specified pieces:
//! the reaction tally filter, the content formatter, the post builder,
//! and the synchronizer, a step-driven state machine whose remote
//! effects (store reads and writes, message sends, edits and deletes)
//! are performed by the surrounding program between steps.

pub mod config;
pub mod format;
pub mod model;
pub mod post;
pub mod sync;
pub mod tally;
pub mod text;
