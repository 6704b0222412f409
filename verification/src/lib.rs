//! Core logic of a Discord client SDK: a per-route rate-limit scheduler with a
//! global cooldown, an HTTP request pipeline with a permanent token-invalid
//! latch, a gateway shard session state machine with resumable sessions, a
//! cluster that manages many shards behind a serialized identify queue, and
//! the request and authorization-URL builders that feed the pipeline.

use vstd::prelude::*;

pub mod encoding;
pub mod gateway;
pub mod http;
pub mod model;
pub mod oauth2;
pub mod ratelimit;
pub mod request;
pub mod text;

verus! {

/// Discord API version that request URLs name.
pub const API_VERSION: u8 = 8;

} // verus!
