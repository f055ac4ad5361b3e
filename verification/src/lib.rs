//! Event-polling and resumption engine for a file-synchronization daemon's
//! change feed.
//!
//! The library models the core of a long-running watcher client: it decodes
//! tagged event envelopes from the daemon's JSON event feed, tracks a
//! resumption watermark over event ids, resolves folder identifiers to local
//! filesystem roots through an append-only cache, and routes each event to a
//! dispatch plan (notify, fetch a folder root first, or observe only).
//! Network I/O and the desktop-notification side effects live outside the
//! library; callers feed response bodies in and carry dispatch plans out.

use vstd::prelude::*;

pub mod decode;
pub mod engine;
pub mod events;
pub mod json;
pub mod resolver;

verus! {

} // verus!
