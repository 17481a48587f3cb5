//! Resolution and decoding pipeline for an interactive baseball-statistics
//! browser.
//!
//! A session validates a season, builds a directory of teams for that season,
//! and then narrows a user's query (a player name, a team, a leaderboard
//! category) to exactly one entity, decoding the remote service's
//! semi-structured responses into typed records.  The remote transport and the
//! terminal prompts live outside this crate; everything with decision logic
//! stands here, with contracts.

pub mod catalog;
pub mod classify;
pub mod client;
pub mod errors;
pub mod io;
pub mod json;
pub mod leaders;
pub mod player;
pub mod requests;
pub mod resolve;
pub mod season;
pub mod stats;
pub mod teams;
pub mod text;
