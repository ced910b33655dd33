//! Playback orchestration engine for a terminal music streamer.
//!
//! The library owns the play queue, the played-ids set, the related-seed
//! ring, and the mirror-failover bookkeeping for two independent backend
//! families. All decision logic is verified; network transport and the
//! audio driver live outside the library and hand it plain values.

pub mod backend;
pub mod commands;
pub mod config;
pub mod failover;
pub mod logic;
pub mod outside;
pub mod parse;
pub mod resolver;
pub mod signals;
pub mod source;
pub mod strutil;

use vstd::prelude::*;

verus! {

/// Errors surfaced by the orchestration engine.
#[derive(Debug)]
pub enum Error {
    InvalidVideoUrl(String),
    InvalidPlaylistUrl(String),
    NoRelatedVideoFound(String),
    AllPipedApiDomainsDown(String),
    AllInvidiousApiDomainsDown(String),
    OtherError(String),
    InvalidOption(String),
    PrintHelp,
}

} // verus!
