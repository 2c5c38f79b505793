//! Opening-book layer for a line-oriented chess engine protocol.
//!
//! The library holds the verified core of a protocol intermediary that sits
//! between a chess front-end and a native search engine: command decoding,
//! configuration state with validated assignment, the statistics cache, the
//! move-selection pipeline, and the search-response interception logic.
//! Process, network and console I/O live outside the library and hand it
//! plain values.

pub mod cache;
pub mod castle;
pub mod config;
pub mod explorer;
pub mod interceptor;
pub mod numtext;
pub mod protocol;
pub mod selector;
pub mod stats;
pub mod text;

pub use castle::fix_castle;
