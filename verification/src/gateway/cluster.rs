//! The cluster: owner of many shard sessions. It computes the shard scheme,
//! creates the sessions — pre-seeded with resume tokens kept across
//! restarts — and offers the send, shutdown and observability surface over
//! all of them.

use vstd::prelude::*;
use crate::gateway::queue::IdentifyQueue;
use crate::gateway::resume::ResumeSession;
use crate::gateway::session::{Information, Message, Session, SessionSendError, Stage};
use crate::http::token::{normalize_token, spec_normalize_token};

verus! {

/// Which shards of a bot this process runs.
#[derive(Clone, Copy, Debug, Eq, PartialEq, Structural)]
pub enum ShardScheme {
    /// Ask the HTTP API for the recommended shard count.
    Auto,
    /// Run shards `from` through `to` of `total`.
    Range {
        /// First shard id to run.
        from: u64,
        /// Last shard id to run.
        to: u64,
        /// Total shard count across all processes.
        total: u64,
    },
    /// A contiguous sub-range for multi-process deployments.
    Bucket {
        /// First shard id of this process.
        first: u64,
        /// Last shard id of this process.
        last: u64,
        /// Total shard count across all processes.
        total: u64,
    },
}

impl ShardScheme {
    /// Whether the scheme names a concrete, well-formed range.
    pub open spec fn spec_valid_range(self) -> bool {
        match self {
            ShardScheme::Auto => false,
            ShardScheme::Range { from, to, total } => from <= to && to < total,
            ShardScheme::Bucket { first, last, total } => first <= last && last < total,
        }
    }

    /// The concrete `(from, to, total)` range of a non-auto scheme.
    pub open spec fn spec_bounds(self) -> (u64, u64, u64) {
        match self {
            ShardScheme::Auto => (0, 0, 0),
            ShardScheme::Range { from, to, total } => (from, to, total),
            ShardScheme::Bucket { first, last, total } => (first, last, total),
        }
    }

    /// The concrete range of this scheme, when it is well formed.
    pub fn bounds(&self) -> (r: Option<(u64, u64, u64)>)
        ensures
            match r {
                Some(b) => self.spec_valid_range() && b == self.spec_bounds(),
                None => !self.spec_valid_range(),
            },
    {
        match self {
            ShardScheme::Auto => None,
            ShardScheme::Range { from, to, total } => {
                if *from <= *to && *to < *total {
                    Some((*from, *to, *total))
                } else {
                    None
                }
            },
            ShardScheme::Bucket { first, last, total } => {
                if *first <= *last && *last < *total {
                    Some((*first, *last, *total))
                } else {
                    None
                }
            },
        }
    }
}

/// The range the HTTP API's recommended shard count stands for: all shards
/// from zero, the count as the total.
pub fn scheme_from_recommended(shards: u64) -> (r: ShardScheme)
    requires
        shards > 0,
    ensures
        r == (ShardScheme::Range { from: 0, to: (shards - 1) as u64, total: shards }),
        r.spec_valid_range(),
{
    ShardScheme::Range { from: 0, to: shards - 1, total: shards }
}

/// Kind of failure when sending a command to a shard.
#[derive(Clone, Copy, Debug, Eq, PartialEq, Structural)]
pub enum ClusterCommandErrorType {
    /// The shard exists, but sending over it failed.
    Sending,
    /// No shard with the given id exists in the cluster.
    ShardNonexistent {
        /// The id asked for.
        id: u64,
    },
}

/// Sending a command to a shard failed.
#[derive(Clone, Debug)]
pub struct ClusterCommandError {
    /// What failed.
    pub kind: ClusterCommandErrorType,
    /// Description of the underlying cause, if one is known.
    pub source: Option<String>,
}

impl ClusterCommandError {
    /// The kind of failure.
    pub fn kind(&self) -> (r: &ClusterCommandErrorType)
        ensures
            r == self.kind,
    {
        &self.kind
    }

    /// Consume the error, keeping only the underlying cause.
    pub fn into_source(self) -> (r: Option<String>)
        ensures
            r == self.source,
    {
        self.source
    }

    /// Consume the error into its kind and underlying cause.
    pub fn into_parts(self) -> (r: (ClusterCommandErrorType, Option<String>))
        ensures
            r.0 == self.kind,
            r.1 == self.source,
    {
        (self.kind, self.source)
    }

    /// Lift a raw-send failure into a command failure of the same shape.
    pub fn from_send(error: ClusterSendError) -> (r: ClusterCommandError)
        ensures
            r.kind == match error.kind {
                ClusterSendErrorType::Sending => ClusterCommandErrorType::Sending,
                ClusterSendErrorType::ShardNonexistent { id } => {
                    ClusterCommandErrorType::ShardNonexistent { id }
                },
            },
            r.source == error.source,
    {
        let (kind, source) = error.into_parts();
        match kind {
            ClusterSendErrorType::Sending => ClusterCommandError {
                kind: ClusterCommandErrorType::Sending,
                source,
            },
            ClusterSendErrorType::ShardNonexistent { id } => ClusterCommandError {
                kind: ClusterCommandErrorType::ShardNonexistent { id },
                source,
            },
        }
    }
}

/// Kind of failure when sending a raw frame via a shard.
#[derive(Clone, Copy, Debug, Eq, PartialEq, Structural)]
pub enum ClusterSendErrorType {
    /// The shard exists, but sending over it failed.
    Sending,
    /// No shard with the given id exists in the cluster.
    ShardNonexistent {
        /// The id asked for.
        id: u64,
    },
}

/// Sending a raw frame via a shard failed.
#[derive(Clone, Debug)]
pub struct ClusterSendError {
    /// What failed.
    pub kind: ClusterSendErrorType,
    /// Description of the underlying cause, if one is known.
    pub source: Option<String>,
}

impl ClusterSendError {
    /// The kind of failure.
    pub fn kind(&self) -> (r: &ClusterSendErrorType)
        ensures
            r == self.kind,
    {
        &self.kind
    }

    /// Consume the error, keeping only the underlying cause.
    pub fn into_source(self) -> (r: Option<String>)
        ensures
            r == self.source,
    {
        self.source
    }

    /// Consume the error into its kind and underlying cause.
    pub fn into_parts(self) -> (r: (ClusterSendErrorType, Option<String>))
        ensures
            r.0 == self.kind,
            r.1 == self.source,
    {
        (self.kind, self.source)
    }
}

/// Kind of failure when starting a cluster.
#[derive(Clone, Copy, Debug, Eq, PartialEq, Structural)]
pub enum ClusterStartErrorType {
    /// Retrieving the recommended shard count over HTTP failed.
    RetrievingGatewayInfo,
}

/// Starting a cluster failed.
#[derive(Clone, Debug)]
pub struct ClusterStartError {
    /// What failed.
    pub kind: ClusterStartErrorType,
    /// Description of the underlying cause, if one is known.
    pub source: Option<String>,
}

impl ClusterStartError {
    /// The kind of failure.
    pub fn kind(&self) -> (r: &ClusterStartErrorType)
        ensures
            r == self.kind,
    {
        &self.kind
    }

    /// Consume the error, keeping only the underlying cause.
    pub fn into_source(self) -> (r: Option<String>)
        ensures
            r == self.source,
    {
        self.source
    }

    /// Consume the error into its kind and underlying cause.
    pub fn into_parts(self) -> (r: (ClusterStartErrorType, Option<String>))
        ensures
            r.0 == self.kind,
            r.1 == self.source,
    {
        (self.kind, self.source)
    }
}

/// Configuration a cluster is built from.
#[derive(Clone, Debug)]
pub struct ClusterConfig {
    /// Normalized authentication token.
    pub token: String,
    /// Intents bit set announced on identify.
    pub intents: u64,
    /// Which shards this process runs.
    pub scheme: ShardScheme,
}

/// The resume token kept for a shard id, if the list holds one: the first
/// entry with the id counts.
pub open spec fn spec_lookup_resume(m: Seq<(u64, ResumeSession)>, id: u64) -> Option<
    (Seq<char>, u64),
>
    decreases m.len(),
{
    if m.len() == 0 {
        Option::None
    } else if m[0].0 == id {
        Option::Some((m[0].1.session_id@, m[0].1.sequence))
    } else {
        spec_lookup_resume(m.drop_first(), id)
    }
}

fn lookup_resume(m: &Vec<(u64, ResumeSession)>, id: u64) -> (r: Option<ResumeSession>)
    ensures
        match r {
            Some(rs) => spec_lookup_resume(m@, id) == Option::Some((rs.session_id@, rs.sequence)),
            None => spec_lookup_resume(m@, id) is None,
        },
{
    let n = m.len();
    proof {
        assert(m@.subrange(0, n as int) =~= m@);
    }
    let mut i: usize = 0;
    while i < n
        invariant
            0 <= i <= n,
            n == m@.len(),
            spec_lookup_resume(m@, id) == spec_lookup_resume(m@.subrange(i as int, n as int), id),
        decreases n - i,
    {
        proof {
            assert(m@.subrange(i as int, n as int)[0] == m@[i as int]);
            assert(m@.subrange(i as int, n as int).drop_first() =~= m@.subrange(
                i as int + 1,
                n as int,
            ));
        }
        if m[i].0 == id {
            let rs = ResumeSession {
                session_id: m[i].1.session_id.clone(),
                sequence: m[i].1.sequence,
            };
            return Some(rs);
        }
        i = i + 1;
    }
    proof {
        assert(m@.subrange(n as int, n as int).len() == 0);
    }
    None
}

/// The resume entries a list of sessions yields: one entry per resumable
/// session, in shard order, carrying the session id and sequence.
pub open spec fn spec_resume_list(s: Seq<Session>) -> Seq<(u64, (Seq<char>, u64))>
    decreases s.len(),
{
    if s.len() == 0 {
        Seq::empty()
    } else {
        let rest = spec_resume_list(s.drop_first());
        if s[0].resumable() {
            seq![(s[0].shard_id, (s[0].session_id->0@, s[0].sequence->0))] + rest
        } else {
            rest
        }
    }
}

/// Appending a session appends its entry, if it has one.
pub proof fn lemma_resume_list_push(s: Seq<Session>, x: Session)
    ensures
        spec_resume_list(s.push(x)) == spec_resume_list(s) + (if x.resumable() {
            seq![(x.shard_id, (x.session_id->0@, x.sequence->0))]
        } else {
            Seq::<(u64, (Seq<char>, u64))>::empty()
        }),
    decreases s.len(),
{
    let tail: Seq<(u64, (Seq<char>, u64))> = if x.resumable() {
        seq![(x.shard_id, (x.session_id->0@, x.sequence->0))]
    } else {
        Seq::empty()
    };
    if s.len() == 0 {
        assert(s.push(x).drop_first() =~= Seq::<Session>::empty());
        assert(s.push(x)[0] == x);
        assert(spec_resume_list(Seq::<Session>::empty()) == Seq::<(u64, (Seq<char>, u64))>::empty());
        assert(spec_resume_list(s) == Seq::<(u64, (Seq<char>, u64))>::empty());
        assert(spec_resume_list(s.push(x)) =~= spec_resume_list(s) + tail);
    } else {
        lemma_resume_list_push(s.drop_first(), x);
        assert(s.push(x).drop_first() =~= s.drop_first().push(x));
        assert(s.push(x)[0] == s[0]);
        if s[0].resumable() {
            assert(spec_resume_list(s.push(x)) =~= spec_resume_list(s) + tail);
        } else {
            assert(spec_resume_list(s.push(x)) =~= spec_resume_list(s) + tail);
        }
    }
}

/// A session's id appears among the resume entries exactly when the session
/// is resumable, assuming shard ids are distinct.
pub proof fn lemma_resume_list_iff(s: Seq<Session>, i: int)
    requires
        0 <= i < s.len(),
        forall|j: int, k: int|
            0 <= j < k < s.len() ==> (#[trigger] s[j].shard_id) != (#[trigger] s[k].shard_id),
    ensures
        s[i].resumable() <==> exists|k: int|
            0 <= k < spec_resume_list(s).len() && (#[trigger] spec_resume_list(s)[k]) == (
            s[i].shard_id,
            (s[i].session_id->0@, s[i].sequence->0),
            ),
    decreases s.len(),
{
    let entries = spec_resume_list(s);
    let rest = spec_resume_list(s.drop_first());
    if i == 0 {
        if s[0].resumable() {
            assert(entries[0] == (s[0].shard_id, (s[0].session_id->0@, s[0].sequence->0)));
        } else {
            if exists|k: int|
                0 <= k < entries.len() && (#[trigger] entries[k]) == (
                s[0].shard_id,
                (s[0].session_id->0@, s[0].sequence->0),
                ) {
                let k = choose|k: int|
                    0 <= k < entries.len() && (#[trigger] entries[k]) == (
                    s[0].shard_id,
                    (s[0].session_id->0@, s[0].sequence->0),
                    );
                lemma_resume_list_ids(s.drop_first(), k);
            }
        }
    } else {
        lemma_resume_list_iff(s.drop_first(), i - 1);
        assert(s.drop_first()[i - 1] == s[i]);
        let target = (s[i].shard_id, (s[i].session_id->0@, s[i].sequence->0));
        if s[0].resumable() {
            assert(entries =~= seq![
                (s[0].shard_id, (s[0].session_id->0@, s[0].sequence->0)),
            ] + rest);
            if s[i].resumable() {
                let k = choose|k: int| 0 <= k < rest.len() && (#[trigger] rest[k]) == target;
                assert(entries[k + 1] == target);
            } else {
                if exists|k: int| 0 <= k < entries.len() && (#[trigger] entries[k]) == target {
                    let k = choose|k: int|
                        0 <= k < entries.len() && (#[trigger] entries[k]) == target;
                    if k == 0 {
                        assert(s[0].shard_id == s[i].shard_id);
                        assert(false);
                    } else {
                        assert(rest[k - 1] == target);
                    }
                }
            }
        } else {
            assert(entries =~= rest);
        }
    }
}

/// Every resume entry carries the id of some session in the list.
proof fn lemma_resume_list_ids(s: Seq<Session>, k: int)
    requires
        0 <= k < spec_resume_list(s).len(),
    ensures
        exists|i: int|
            0 <= i < s.len() && (#[trigger] s[i].shard_id) == spec_resume_list(s)[k].0,
    decreases s.len(),
{
    let rest = spec_resume_list(s.drop_first());
    if s[0].resumable() {
        if k == 0 {
            assert(s[0].shard_id == spec_resume_list(s)[0].0);
        } else {
            lemma_resume_list_ids(s.drop_first(), k - 1);
            let i = choose|i: int|
                0 <= i < s.drop_first().len() && (#[trigger] s.drop_first()[i].shard_id)
                    == rest[k - 1].0;
            assert(s[i + 1].shard_id == spec_resume_list(s)[k].0);
        }
    } else {
        lemma_resume_list_ids(s.drop_first(), k);
        let i = choose|i: int|
            0 <= i < s.drop_first().len() && (#[trigger] s.drop_first()[i].shard_id) == rest[k].0;
        assert(s[i + 1].shard_id == spec_resume_list(s)[k].0);
    }
}

/// Builder to configure and construct a cluster.
#[derive(Clone, Debug)]
pub struct ClusterBuilder {
    /// Configuration gathered so far.
    pub config: ClusterConfig,
    /// Resume tokens kept from an earlier process, by shard id.
    pub resume_sessions: Vec<(u64, ResumeSession)>,
}

impl ClusterBuilder {
    /// Set which shards this process runs.
    pub fn shard_scheme(self, scheme: ShardScheme) -> (r: ClusterBuilder)
        ensures
            r.config.scheme == scheme,
            r.config.token == self.config.token,
            r.config.intents == self.config.intents,
            r.resume_sessions == self.resume_sessions,
    {
        let mut b = self;
        b.config.scheme = scheme;
        b
    }

    /// Hand over resume tokens kept from an earlier process, by shard id.
    pub fn resume_sessions(self, resume_sessions: Vec<(u64, ResumeSession)>) -> (r: ClusterBuilder)
        ensures
            r.resume_sessions == resume_sessions,
            r.config == self.config,
    {
        let mut b = self;
        b.resume_sessions = resume_sessions;
        b
    }

    /// Consume the builder, constructing the cluster: one session per shard
    /// id in the scheme's range, each pre-seeded with any resume token kept
    /// under its id.
    pub fn build(self) -> (r: Cluster)
        requires
            self.config.scheme.spec_valid_range(),
            self.config.scheme.spec_bounds().1 - self.config.scheme.spec_bounds().0 + 1
                <= usize::MAX,
        ensures
            r.wf(),
            r.shard_from == self.config.scheme.spec_bounds().0,
            r.shard_to == self.config.scheme.spec_bounds().1,
            r.shards@.len() == r.shard_to - r.shard_from + 1,
            forall|i: int|
                0 <= i < r.shards@.len() ==> {
                    let s = #[trigger] r.shards@[i];
                    &&& s.stage == Stage::Disconnected
                    &&& s.shard_total == self.config.scheme.spec_bounds().2
                    &&& match spec_lookup_resume(self.resume_sessions@, s.shard_id) {
                        Option::Some((sid, seq)) => s.session_id matches Some(x) && x@ == sid
                            && s.sequence == Some(seq),
                        Option::None => s.session_id is None && s.sequence is None,
                    }
                },
            r.config == self.config,
    {
        let (from, to, total) = match self.config.scheme.bounds() {
            Some(b) => b,
            None => {
                proof {
                    assert(false);
                }
                (0, 0, 1)
            },
        };
        let count = to - from + 1;
        let mut shards: Vec<Session> = Vec::new();
        let mut i: u64 = 0;
        while i < count
            invariant
                0 <= i <= count,
                count == to - from + 1,
                from <= to < total,
                count <= usize::MAX,
                shards@.len() == i,
                forall|j: int|
                    0 <= j < i ==> {
                        let s = #[trigger] shards@[j];
                        &&& s.shard_id == from + j
                        &&& s.stage == Stage::Disconnected
                        &&& s.shard_total == total
                        &&& s.outbound@.len() == 0
                        &&& match spec_lookup_resume(self.resume_sessions@, s.shard_id) {
                            Option::Some((sid, seq)) => s.session_id matches Some(x) && x@ == sid
                                && s.sequence == Some(seq),
                            Option::None => s.session_id is None && s.sequence is None,
                        }
                    },
            decreases count - i,
        {
            let id = from + i;
            let resume = lookup_resume(&self.resume_sessions, id);
            let session = Session::new(id, total, resume);
            shards.push(session);
            i = i + 1;
        }
        Cluster {
            shard_from: from,
            shard_to: to,
            shards,
            queue: IdentifyQueue::new(),
            config: self.config,
        }
    }
}

/// A manager for many shard sessions.
#[derive(Clone, Debug)]
pub struct Cluster {
    /// First shard id this cluster runs.
    pub shard_from: u64,
    /// Last shard id this cluster runs.
    pub shard_to: u64,
    /// The sessions, in shard-id order: entry `i` is shard `shard_from + i`.
    pub shards: Vec<Session>,
    /// The identify queue shared by all the cluster's shards.
    pub queue: IdentifyQueue,
    /// The configuration the cluster was built from.
    pub config: ClusterConfig,
}

impl Cluster {
    /// Well-formedness: one session per id of the range, in order.
    pub open spec fn wf(self) -> bool {
        &&& self.shard_from <= self.shard_to
        &&& self.shards@.len() == self.shard_to - self.shard_from + 1
        &&& forall|i: int|
            0 <= i < self.shards@.len() ==> (#[trigger] self.shards@[i].shard_id)
                == self.shard_from + i
    }

    /// Start configuring a cluster with a token and an intents bit set. The
    /// token is normalized to carry an authentication prefix.
    pub fn builder(token: String, intents: u64) -> (r: ClusterBuilder)
        ensures
            r.config.token@ == spec_normalize_token(token@),
            r.config.intents == intents,
            r.config.scheme == (ShardScheme::Range { from: 0, to: 0, total: 1 }),
            r.resume_sessions@.len() == 0,
    {
        ClusterBuilder {
            config: ClusterConfig {
                token: normalize_token(token),
                intents,
                scheme: ShardScheme::Range { from: 0, to: 0, total: 1 },
            },
            resume_sessions: Vec::new(),
        }
    }

    /// The configuration the cluster was built from.
    pub fn config(&self) -> (r: &ClusterConfig)
        ensures
            r == self.config,
    {
        &self.config
    }

    /// Bring every disconnected shard into the connecting stage; the driver
    /// opens their sockets and feeds events back in.
    pub fn up(&mut self)
        requires
            old(self).wf(),
        ensures
            final(self).wf(),
            final(self).shard_from == old(self).shard_from,
            final(self).shard_to == old(self).shard_to,
            final(self).queue == old(self).queue,
            final(self).config == old(self).config,
            final(self).shards@.len() == old(self).shards@.len(),
            forall|i: int|
                0 <= i < old(self).shards@.len() ==> (#[trigger] final(self).shards@[i]) == (
                if old(self).shards@[i].stage == Stage::Disconnected {
                    Session { stage: Stage::Connecting, ..old(self).shards@[i] }
                } else {
                    old(self).shards@[i]
                }),
    {
        let n = self.shards.len();
        let mut i: usize = 0;
        while i < n
            invariant
                0 <= i <= n,
                n == self.shards@.len(),
                n == old(self).shards@.len(),
                self.shard_from == old(self).shard_from,
                self.shard_to == old(self).shard_to,
                self.queue == old(self).queue,
                self.config == old(self).config,
                forall|j: int|
                    i <= j < n ==> (#[trigger] self.shards@[j]) == old(self).shards@[j],
                forall|j: int|
                    0 <= j < i ==> (#[trigger] self.shards@[j]) == (if old(
                        self,
                    ).shards@[j].stage == Stage::Disconnected {
                        Session { stage: Stage::Connecting, ..old(self).shards@[j] }
                    } else {
                        old(self).shards@[j]
                    }),
            decreases n - i,
    {
            let is_disconnected = matches!(self.shards[i].stage, Stage::Disconnected);
            if is_disconnected {
                let session = &mut self.shards[i];
                session.begin_connect();
            }
            i = i + 1;
        }
        proof {
            assert(self.wf()) by {
                assert(forall|i: int|
                    0 <= i < self.shards@.len() ==> (#[trigger] self.shards@[i].shard_id) == old(
                        self,
                    ).shards@[i].shard_id);
            }
        }
    }

    /// Bring the cluster down, discarding every shard's resumable state.
    pub fn down(&mut self)
        requires
            old(self).wf(),
        ensures
            final(self).wf(),
            final(self).shard_from == old(self).shard_from,
            final(self).shard_to == old(self).shard_to,
            final(self).queue == old(self).queue,
            final(self).config == old(self).config,
            final(self).shards@.len() == old(self).shards@.len(),
            forall|i: int|
                0 <= i < old(self).shards@.len() ==> (#[trigger] final(self).shards@[i]) == (
                Session {
                    stage: Stage::Disconnected,
                    session_id: None,
                    sequence: None,
                    last_heartbeat_sent: None,
                    last_heartbeat_acked: None,
                    ..old(self).shards@[i]
                }),
    {
        let n = self.shards.len();
        let mut i: usize = 0;
        while i < n
            invariant
                0 <= i <= n,
                n == self.shards@.len(),
                n == old(self).shards@.len(),
                self.shard_from == old(self).shard_from,
                self.shard_to == old(self).shard_to,
                self.queue == old(self).queue,
                self.config == old(self).config,
                forall|j: int|
                    i <= j < n ==> (#[trigger] self.shards@[j]) == old(self).shards@[j],
                forall|j: int|
                    0 <= j < i ==> (#[trigger] self.shards@[j]) == (Session {
                        stage: Stage::Disconnected,
                        session_id: None,
                        sequence: None,
                        last_heartbeat_sent: None,
                        last_heartbeat_acked: None,
                        ..old(self).shards@[j]
                    }),
            decreases n - i,
        {
            let session = &mut self.shards[i];
            session.shutdown();
            i = i + 1;
        }
        proof {
            assert(forall|i: int|
                0 <= i < self.shards@.len() ==> (#[trigger] self.shards@[i].shard_id) == old(
                    self,
                ).shards@[i].shard_id);
        }
    }

    /// Bring the cluster down so the sessions can be resumed, returning one
    /// entry per shard that had observed both a Ready and a sequenced
    /// dispatch: its id with the session id and sequence to resume from.
    pub fn down_resumable(&mut self) -> (r: Vec<(u64, ResumeSession)>)
        requires
            old(self).wf(),
        ensures
            final(self).wf(),
            final(self).shard_from == old(self).shard_from,
            final(self).shard_to == old(self).shard_to,
            final(self).queue == old(self).queue,
            final(self).config == old(self).config,
            final(self).shards@.len() == old(self).shards@.len(),
            forall|i: int|
                0 <= i < old(self).shards@.len() ==> (#[trigger] final(self).shards@[i]) == (
                Session {
                    stage: Stage::Disconnected,
                    last_heartbeat_sent: None,
                    last_heartbeat_acked: None,
                    ..old(self).shards@[i]
                }),
            r@.map_values(|p: (u64, ResumeSession)| (p.0, (p.1.session_id@, p.1.sequence)))
                =~= spec_resume_list(old(self).shards@),
    {
        let n = self.shards.len();
        let mut out: Vec<(u64, ResumeSession)> = Vec::new();
        let mut i: usize = 0;
        while i < n
            invariant
                0 <= i <= n,
                n == self.shards@.len(),
                n == old(self).shards@.len(),
                self.shard_from == old(self).shard_from,
                self.shard_to == old(self).shard_to,
                self.queue == old(self).queue,
                self.config == old(self).config,
                forall|j: int|
                    i <= j < n ==> (#[trigger] self.shards@[j]) == old(self).shards@[j],
                forall|j: int|
                    0 <= j < i ==> (#[trigger] self.shards@[j]) == (Session {
                        stage: Stage::Disconnected,
                        last_heartbeat_sent: None,
                        last_heartbeat_acked: None,
                        ..old(self).shards@[j]
                    }),
                out@.map_values(|p: (u64, ResumeSession)| (p.0, (p.1.session_id@, p.1.sequence)))
                    =~= spec_resume_list(old(self).shards@.subrange(0, i as int)),
            decreases n - i,
        {
            proof {
                assert(old(self).shards@.subrange(0, i as int + 1) =~= old(self).shards@.subrange(
                    0,
                    i as int,
                ).push(old(self).shards@[i as int]));
                lemma_resume_list_push(
                    old(self).shards@.subrange(0, i as int),
                    old(self).shards@[i as int],
                );
            }
            let id = self.shards[i].shard_id;
            let session = &mut self.shards[i];
            let token = session.shutdown_resumable();
            match token {
                Some(rs) => {
                    out.push((id, rs));
                },
                None => {},
            }
            i = i + 1;
        }
        proof {
            assert(old(self).shards@.subrange(0, n as int) =~= old(self).shards@);
            assert(forall|i: int|
                0 <= i < self.shards@.len() ==> (#[trigger] self.shards@[i].shard_id) == old(
                    self,
                ).shards@[i].shard_id);
        }
        out
    }

    /// The session of one shard, by id.
    pub fn shard(&self, id: u64) -> (r: Option<&Session>)
        requires
            self.wf(),
        ensures
            match r {
                Some(s) => self.shard_from <= id <= self.shard_to && *s == self.shards@[id
                    - self.shard_from],
                None => id < self.shard_from || id > self.shard_to,
            },
    {
        if id < self.shard_from || id > self.shard_to {
            return None;
        }
        let n = self.shards.len();
        assert(id - self.shard_from < n);
        let idx = (id - self.shard_from) as usize;
        Some(&self.shards[idx])
    }

    /// All the cluster's sessions, in shard-id order.
    pub fn shards(&self) -> (r: &Vec<Session>)
        ensures
            r == self.shards,
    {
        &self.shards
    }

    /// Observable state of every shard: its id with its information.
    pub fn info(&self) -> (r: Vec<(u64, Information)>)
        requires
            self.wf(),
        ensures
            r@.len() == self.shards@.len(),
            forall|i: int|
                0 <= i < r@.len() ==> (#[trigger] r@[i]).0 == self.shards@[i].shard_id && r@[i].1.id
                    == self.shards@[i].shard_id && r@[i].1.stage == self.shards@[i].stage,
    {
        let n = self.shards.len();
        let mut out: Vec<(u64, Information)> = Vec::new();
        let mut i: usize = 0;
        while i < n
            invariant
                0 <= i <= n,
                n == self.shards@.len(),
                out@.len() == i,
                forall|j: int|
                    0 <= j < i ==> (#[trigger] out@[j]).0 == self.shards@[j].shard_id
                        && out@[j].1.id == self.shards@[j].shard_id && out@[j].1.stage
                        == self.shards@[j].stage,
            decreases n - i,
        {
            let info = self.shards[i].info();
            out.push((self.shards[i].shard_id, info));
            i = i + 1;
        }
        out
    }

    /// Queue a raw frame on one shard. Fails with `ShardNonexistent` when no
    /// shard has the id, and with `Sending` when the shard has no open
    /// connection.
    pub fn send(&mut self, id: u64, message: Message) -> (r: Result<(), ClusterSendError>)
        requires
            old(self).wf(),
        ensures
            final(self).wf(),
            final(self).shard_from == old(self).shard_from,
            final(self).shard_to == old(self).shard_to,
            final(self).queue == old(self).queue,
            final(self).config == old(self).config,
            match r {
                Ok(()) => {
                    let idx = id - old(self).shard_from;
                    &&& old(self).shard_from <= id <= old(self).shard_to
                    &&& old(self).shards@[idx].stage != Stage::Disconnected
                    &&& final(self).shards@ == old(self).shards@.update(
                        idx,
                        Session {
                            outbound: final(self).shards@[idx].outbound,
                            ..old(self).shards@[idx]
                        },
                    )
                    &&& final(self).shards@[idx].outbound@ == old(
                        self,
                    ).shards@[idx].outbound@.push(message)
                },
                Err(e) => {
                    &&& final(self).shards@ == old(self).shards@
                    &&& match e.kind {
                        ClusterSendErrorType::ShardNonexistent { id: eid } => eid == id && (id
                            < old(self).shard_from || id > old(self).shard_to),
                        ClusterSendErrorType::Sending => old(self).shard_from <= id <= old(
                            self,
                        ).shard_to && old(self).shards@[id - old(self).shard_from].stage
                            == Stage::Disconnected,
                    }
                },
            },
    {
        if id < self.shard_from || id > self.shard_to {
            return Err(
                ClusterSendError {
                    kind: ClusterSendErrorType::ShardNonexistent { id },
                    source: None,
                },
            );
        }
        let n = self.shards.len();
        assert(id - self.shard_from < n);
        let idx = (id - self.shard_from) as usize;
        let session = &mut self.shards[idx];
        match session.send(message) {
            Ok(()) => {
                proof {
                    assert(self.shards@ =~= old(self).shards@.update(
                        idx as int,
                        Session {
                            outbound: self.shards@[idx as int].outbound,
                            ..old(self).shards@[idx as int]
                        },
                    ));
                }
                Ok(())
            },
            Err(SessionSendError::SessionInactive) => {
                proof {
                    assert(self.shards@ =~= old(self).shards@);
                }
                Err(
                    ClusterSendError {
                        kind: ClusterSendErrorType::Sending,
                        source: Some("the session has no open connection".to_owned()),
                    },
                )
            },
        }
    }

    /// Queue a command, already serialized to text, on one shard, with the
    /// same failure shape as [`Cluster::send`].
    pub fn command(&mut self, id: u64, json: String) -> (r: Result<(), ClusterCommandError>)
        requires
            old(self).wf(),
        ensures
            final(self).wf(),
            final(self).shard_from == old(self).shard_from,
            final(self).shard_to == old(self).shard_to,
            final(self).queue == old(self).queue,
            final(self).config == old(self).config,
            match r {
                Ok(()) => {
                    let idx = id - old(self).shard_from;
                    &&& old(self).shard_from <= id <= old(self).shard_to
                    &&& old(self).shards@[idx].stage != Stage::Disconnected
                    &&& final(self).shards@ == old(self).shards@.update(
                        idx,
                        Session {
                            outbound: final(self).shards@[idx].outbound,
                            ..old(self).shards@[idx]
                        },
                    )
                    &&& final(self).shards@[idx].outbound@ == old(
                        self,
                    ).shards@[idx].outbound@.push(Message::Text(json))
                },
                Err(e) => {
                    &&& final(self).shards@ == old(self).shards@
                    &&& match e.kind {
                        ClusterCommandErrorType::ShardNonexistent { id: eid } => eid == id && (id
                            < old(self).shard_from || id > old(self).shard_to),
                        ClusterCommandErrorType::Sending => old(self).shard_from <= id <= old(
                            self,
                        ).shard_to && old(self).shards@[id - old(self).shard_from].stage
                            == Stage::Disconnected,
                    }
                },
            },
    {
        match self.send(id, Message::Text(json)) {
            Ok(()) => Ok(()),
            Err(e) => Err(ClusterCommandError::from_send(e)),
        }
    }
}

} // verus!
