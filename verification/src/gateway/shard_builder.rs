//! Configuration and builder for a single shard. The builder normalizes the
//! token, validates the large-threshold and shard-id settings, and produces
//! a fresh session.

use vstd::prelude::*;
use crate::gateway::session::{Session, Stage};
use crate::http::token::{normalize_token, spec_normalize_token};

verus! {

/// The large-threshold setting is out of range.
#[derive(Clone, Copy, Debug, Eq, PartialEq, Structural)]
pub enum LargeThresholdError {
    /// The value is below the allowed minimum of 50.
    TooFew {
        /// Provided value.
        value: u64,
    },
    /// The value is above the allowed maximum of 250.
    TooMany {
        /// Provided value.
        value: u64,
    },
}

/// The shard-id setting is out of range.
#[derive(Clone, Copy, Debug, Eq, PartialEq, Structural)]
pub enum ShardIdError {
    /// The shard id does not fall below the total shard count.
    IdTooLarge {
        /// Shard id.
        id: u64,
        /// Total shard count.
        total: u64,
    },
}

/// Configuration a shard is built from.
#[derive(Clone, Debug)]
pub struct Config {
    /// Gateway URL to connect to, when overridden.
    pub gateway_url: Option<String>,
    /// Normalized authentication token.
    pub token: String,
    /// Intents bit set announced on identify.
    pub intents: u64,
    /// Guild size above which the member list is not sent.
    pub large_threshold: u64,
    /// This shard's id and the total shard count.
    pub shard: [u64; 2],
    /// Session id to resume, kept from an earlier process.
    pub session_id: Option<String>,
    /// Sequence to resume at, kept from an earlier process.
    pub sequence: Option<u64>,
}

/// Builder to configure and construct a shard session.
#[derive(Clone, Debug)]
pub struct ShardBuilder(pub Config);

impl ShardBuilder {
    /// Start configuring a shard with a token and an intents bit set. The
    /// token is normalized to carry an authentication prefix.
    pub fn new(token: String, intents: u64) -> (r: ShardBuilder)
        ensures
            r.0.token@ == spec_normalize_token(token@),
            r.0.intents == intents,
            r.0.large_threshold == 250,
            r.0.shard@ =~= seq![0u64, 1u64],
            r.0.gateway_url is None,
            r.0.session_id is None,
            r.0.sequence is None,
    {
        let token = normalize_token(token);
        let mut shard: [u64; 2] = [0, 1];
        ShardBuilder(
            Config {
                gateway_url: None,
                token,
                intents,
                large_threshold: 250,
                shard,
                session_id: None,
                sequence: None,
            },
        )
    }

    /// Override the URL used for connecting to the gateway.
    pub fn gateway_url(self, gateway_url: Option<String>) -> (r: ShardBuilder)
        ensures
            r.0 == (Config { gateway_url, ..self.0 }),
    {
        let mut builder = self;
        builder.0.gateway_url = gateway_url;
        builder
    }

    /// Set the guild size above which the member list is not sent.
    ///
    /// The minimum is 50 and the maximum is 250; out-of-range values are
    /// rejected, below with `TooFew` and above with `TooMany`.
    pub fn large_threshold(self, large_threshold: u64) -> (r: Result<
        ShardBuilder,
        LargeThresholdError,
    >)
        ensures
            match r {
                Ok(b) => 50 <= large_threshold <= 250 && b.0 == (Config {
                    large_threshold,
                    ..self.0
                }),
                Err(LargeThresholdError::TooFew { value }) => large_threshold < 50 && value
                    == large_threshold,
                Err(LargeThresholdError::TooMany { value }) => large_threshold > 250 && value
                    == large_threshold,
            },
    {
        if large_threshold < 50 {
            return Err(LargeThresholdError::TooFew { value: large_threshold });
        }
        if large_threshold > 250 {
            return Err(LargeThresholdError::TooMany { value: large_threshold });
        }
        let mut builder = self;
        builder.0.large_threshold = large_threshold;
        Ok(builder)
    }

    /// Set the shard id and the total shard count. The id is zero-indexed
    /// and must fall below the total.
    pub fn shard(self, shard_id: u64, shard_total: u64) -> (r: Result<ShardBuilder, ShardIdError>)
        ensures
            match r {
                Ok(b) => shard_id < shard_total && b.0.shard@ =~= seq![shard_id, shard_total]
                    && b.0.token == self.0.token && b.0.intents == self.0.intents
                    && b.0.large_threshold == self.0.large_threshold && b.0.gateway_url
                    == self.0.gateway_url && b.0.session_id == self.0.session_id && b.0.sequence
                    == self.0.sequence,
                Err(ShardIdError::IdTooLarge { id, total }) => shard_id >= shard_total && id
                    == shard_id && total == shard_total,
            },
    {
        if shard_id >= shard_total {
            return Err(ShardIdError::IdTooLarge { id: shard_id, total: shard_total });
        }
        let mut builder = self;
        let shard: [u64; 2] = [shard_id, shard_total];
        builder.0.shard = shard;
        Ok(builder)
    }

    /// Consume the builder, constructing a shard session.
    pub fn build(self) -> (r: Session)
        ensures
            r.shard_id == self.0.shard@[0],
            r.shard_total == self.0.shard@[1],
            r.stage == Stage::Disconnected,
            match self.0.session_id {
                Some(sid) => r.session_id matches Some(s) && s@ == sid@,
                None => r.session_id is None,
            },
            r.sequence == self.0.sequence,
    {
        let id = self.0.shard[0];
        let total = self.0.shard[1];
        Session {
            shard_id: id,
            shard_total: total,
            stage: Stage::Disconnected,
            session_id: self.0.session_id,
            sequence: self.0.sequence,
            heartbeat_interval: 0,
            last_heartbeat_sent: None,
            last_heartbeat_acked: None,
            latency: Vec::new(),
            outbound: Vec::new(),
        }
    }
}

} // verus!
