//! The shard session state machine. A session moves between stages as the
//! protocol events arrive; every transition, and every message the session
//! asks its driver to perform, is decided by a verified function. The
//! driver — socket reads and writes, timers — lives outside the library and
//! hands events in as plain values.

use vstd::prelude::*;
use crate::gateway::resume::ResumeSession;

verus! {

/// How many recent heartbeat round-trips a session keeps.
pub const LATENCY_SAMPLES: usize = 5;

/// Connection stage of a shard session.
#[derive(Clone, Copy, Debug, Eq, PartialEq, Structural)]
pub enum Stage {
    /// Ready or Resumed has been observed on the open connection.
    Connected,
    /// The socket and protocol upgrade are in progress.
    Connecting,
    /// No connection is open; the initial and terminal stage.
    Disconnected,
    /// Hello arrived with no prior session; an identify has been sent.
    Identifying,
    /// Hello arrived with a resumable session; a resume has been sent.
    Resuming,
    /// A heartbeat went unacknowledged for a full interval; the connection
    /// must be force-closed and resumed.
    Zombie,
}

impl Stage {
    /// Name of the stage.
    pub fn name(self) -> (r: &'static str)
        ensures
            r@ == match self {
                Stage::Connected => "connected"@,
                Stage::Connecting => "connecting"@,
                Stage::Disconnected => "disconnected"@,
                Stage::Identifying => "identifying"@,
                Stage::Resuming => "resuming"@,
                Stage::Zombie => "zombie"@,
            },
    {
        match self {
            Stage::Connected => "connected",
            Stage::Connecting => "connecting",
            Stage::Disconnected => "disconnected",
            Stage::Identifying => "identifying",
            Stage::Resuming => "resuming",
            Stage::Zombie => "zombie",
        }
    }
}

/// Protocol opcodes, as they appear on the wire.
#[derive(Clone, Copy, Debug, Eq, PartialEq, Structural)]
pub enum OpCode {
    /// An event, with a sequence number.
    Dispatch,
    /// A request for an immediate heartbeat, or an outbound heartbeat.
    Heartbeat,
    /// Starts a fresh session.
    Identify,
    /// Continues an interrupted session.
    Resume,
    /// The server asks for a reconnect.
    Reconnect,
    /// The session is no longer valid.
    InvalidSession,
    /// First message of a connection; carries the heartbeat interval.
    Hello,
    /// Acknowledges a heartbeat.
    HeartbeatAck,
}

/// Wire number of each opcode.
pub open spec fn opcode_number(op: OpCode) -> u8 {
    match op {
        OpCode::Dispatch => 0,
        OpCode::Heartbeat => 1,
        OpCode::Identify => 2,
        OpCode::Resume => 6,
        OpCode::Reconnect => 7,
        OpCode::InvalidSession => 9,
        OpCode::Hello => 10,
        OpCode::HeartbeatAck => 11,
    }
}

impl OpCode {
    /// Raw wire number.
    pub fn number(self) -> (r: u8)
        ensures
            r == opcode_number(self),
    {
        match self {
            OpCode::Dispatch => 0,
            OpCode::Heartbeat => 1,
            OpCode::Identify => 2,
            OpCode::Resume => 6,
            OpCode::Reconnect => 7,
            OpCode::InvalidSession => 9,
            OpCode::Hello => 10,
            OpCode::HeartbeatAck => 11,
        }
    }

    /// Opcode for a wire number, if it is one this library speaks.
    pub fn from_number(value: u8) -> (r: Option<OpCode>)
        ensures
            match r {
                Some(op) => opcode_number(op) == value,
                None => forall|op: OpCode| opcode_number(op) != value,
            },
    {
        match value {
            0 => Some(OpCode::Dispatch),
            1 => Some(OpCode::Heartbeat),
            2 => Some(OpCode::Identify),
            6 => Some(OpCode::Resume),
            7 => Some(OpCode::Reconnect),
            9 => Some(OpCode::InvalidSession),
            10 => Some(OpCode::Hello),
            11 => Some(OpCode::HeartbeatAck),
            _ => {
                proof {
                    assert forall|op: OpCode| opcode_number(op) != value by {}
                }
                None
            },
        }
    }
}

/// Whether a close code leaves the session resumable. Authentication and
/// sharding faults force a fresh identify; every other code may resume.
pub fn close_code_resumable(code: u16) -> (r: bool)
    ensures
        r == !(code == 4004 || code == 4010 || code == 4011 || code == 4012 || code == 4013
            || code == 4014),
{
    !(code == 4004 || code == 4010 || code == 4011 || code == 4012 || code == 4013 || code
        == 4014)
}

/// A raw outbound frame queued on a session.
#[derive(Clone, Debug)]
pub enum Message {
    /// A binary frame.
    Binary(Vec<u8>),
    /// A text frame.
    Text(String),
    /// A close frame, with an optional close code.
    Close(Option<u16>),
}

/// What a dispatch event means to the session.
#[derive(Clone, Debug)]
pub enum DispatchKind {
    /// The session is fresh and ready; carries the server-issued session id.
    Ready {
        /// Server-issued session identifier.
        session_id: String,
    },
    /// An interrupted session has been resumed.
    Resumed,
    /// Any other event.
    Other,
}

/// A protocol event the driver decoded from the wire.
#[derive(Clone, Debug)]
pub enum GatewayEvent {
    /// An event with a sequence number.
    Dispatch {
        /// Sequence number of the event.
        sequence: u64,
        /// What the event means to the session.
        kind: DispatchKind,
    },
    /// The server asks for an immediate heartbeat.
    Heartbeat,
    /// The server asks for a reconnect; the session may resume.
    Reconnect,
    /// The session is no longer valid on the server.
    InvalidSession {
        /// Whether the server still allows a resume.
        resumable: bool,
    },
    /// First message of a connection.
    Hello {
        /// Milliseconds between heartbeats.
        heartbeat_interval: u64,
    },
    /// The server acknowledges a heartbeat.
    HeartbeatAck,
}

/// What the session asks its driver to do.
#[derive(Clone, Debug)]
pub enum Action {
    /// Send a fresh identify; must first be granted by the identify queue.
    SendIdentify,
    /// Send a resume for the given session.
    SendResume {
        /// Session to resume.
        session_id: String,
        /// Last observed sequence.
        sequence: u64,
    },
    /// Start the heartbeat ticker at this interval, in milliseconds.
    StartHeartbeat {
        /// Milliseconds between heartbeats.
        interval: u64,
    },
    /// Send a heartbeat carrying the last observed sequence.
    SendHeartbeat {
        /// Last observed sequence, if any.
        sequence: Option<u64>,
    },
    /// Surface the event with this sequence on the merged stream.
    EmitEvent {
        /// Sequence number of the event.
        sequence: u64,
    },
    /// Close the connection and reconnect, resuming if allowed.
    Reconnect {
        /// Whether the session may be resumed on the next connection.
        resumable: bool,
    },
}

/// Observable state of one shard session.
#[derive(Clone, Debug)]
pub struct Information {
    /// Shard id.
    pub id: u64,
    /// Current stage.
    pub stage: Stage,
    /// Mean of the recent heartbeat round-trips, in milliseconds, once one
    /// has been measured.
    pub latency_average: Option<u64>,
    /// The recent heartbeat round-trips themselves, oldest first.
    pub latency_recent: Vec<u64>,
    /// Server-issued session id, when a Ready has been observed.
    pub session_id: Option<String>,
    /// Last observed sequence, when a sequenced dispatch arrived.
    pub sequence: Option<u64>,
}

/// Sending over a session failed.
#[derive(Clone, Copy, Debug, Eq, PartialEq, Structural)]
pub enum SessionSendError {
    /// The session has no open connection.
    SessionInactive,
}

/// Sum of a sequence of samples.
pub open spec fn sum_of(s: Seq<u64>) -> int
    decreases s.len(),
{
    if s.len() == 0 {
        0
    } else {
        sum_of(s.drop_last()) + s.last()
    }
}

/// The latency ring after a new sample: the sample is appended and, at the
/// cap, the oldest sample falls off.
pub open spec fn ring_after(ring: Seq<u64>, sample: u64) -> Seq<u64> {
    let pushed = ring.push(sample);
    if pushed.len() > LATENCY_SAMPLES {
        pushed.drop_first()
    } else {
        pushed
    }
}

/// One shard's session state machine.
#[derive(Clone, Debug)]
pub struct Session {
    /// This shard's id.
    pub shard_id: u64,
    /// Total number of shards the bot runs.
    pub shard_total: u64,
    /// Connection stage.
    pub stage: Stage,
    /// Server-issued session id, present once a Ready has been observed.
    pub session_id: Option<String>,
    /// Last observed sequence, present once a sequenced dispatch arrived.
    pub sequence: Option<u64>,
    /// Milliseconds between heartbeats, zero until Hello arrives.
    pub heartbeat_interval: u64,
    /// When the last heartbeat was sent, on the monotonic clock.
    pub last_heartbeat_sent: Option<u64>,
    /// When the last heartbeat acknowledgement arrived.
    pub last_heartbeat_acked: Option<u64>,
    /// Recent heartbeat round-trips, oldest first.
    pub latency: Vec<u64>,
    /// Raw frames queued for the single writer to send.
    pub outbound: Vec<Message>,
}

impl Session {
    /// Whether this session can be resumed: a Ready has issued a session id
    /// and at least one sequenced dispatch has been observed.
    pub open spec fn resumable(self) -> bool {
        self.session_id is Some && self.sequence is Some
    }

    /// A fresh session for one shard, optionally pre-seeded with a resume
    /// token kept from an earlier process.
    pub fn new(shard_id: u64, shard_total: u64, resume: Option<ResumeSession>) -> (r: Session)
        ensures
            r.shard_id == shard_id,
            r.shard_total == shard_total,
            r.stage == Stage::Disconnected,
            match resume {
                Some(rs) => r.session_id matches Some(sid) && sid@ == rs.session_id@ && r.sequence
                    == Some(rs.sequence),
                None => r.session_id is None && r.sequence is None,
            },
            r.heartbeat_interval == 0,
            r.last_heartbeat_sent is None,
            r.last_heartbeat_acked is None,
            r.latency@ =~= Seq::<u64>::empty(),
            r.outbound@ =~= Seq::<Message>::empty(),
    {
        let (session_id, sequence) = match resume {
            Some(rs) => (Some(rs.session_id), Some(rs.sequence)),
            None => (None, None),
        };
        Session {
            shard_id,
            shard_total,
            stage: Stage::Disconnected,
            session_id,
            sequence,
            heartbeat_interval: 0,
            last_heartbeat_sent: None,
            last_heartbeat_acked: None,
            latency: Vec::new(),
            outbound: Vec::new(),
        }
    }

    /// Begin connecting: the driver is opening the socket.
    pub fn begin_connect(&mut self)
        ensures
            *final(self) == (Session { stage: Stage::Connecting, ..*old(self) }),
    {
        self.stage = Stage::Connecting;
    }

    /// The connection dropped (close frame, upgrade failure, or socket
    /// error).
    pub fn connection_lost(&mut self)
        ensures
            *final(self) == (Session {
                stage: Stage::Disconnected,
                last_heartbeat_sent: None,
                last_heartbeat_acked: None,
                ..*old(self)
            }),
    {
        self.stage = Stage::Disconnected;
        self.last_heartbeat_sent = None;
        self.last_heartbeat_acked = None;
    }

    /// Process one protocol event at monotonic time `now`, returning the
    /// actions the driver must perform, in order.
    pub fn process_event(&mut self, event: GatewayEvent, now: u64) -> (actions: Vec<Action>)
        requires
            old(self).last_heartbeat_sent matches Some(t) ==> t <= now,
        ensures
            final(self).shard_id == old(self).shard_id,
            final(self).shard_total == old(self).shard_total,
            match event {
                GatewayEvent::Hello { heartbeat_interval } => {
                    &&& *final(self) == (Session {
                        heartbeat_interval,
                        stage: if old(self).resumable() {
                            Stage::Resuming
                        } else {
                            Stage::Identifying
                        },
                        ..*old(self)
                    })
                    &&& actions@.len() == 2
                    &&& actions@[0] == (Action::StartHeartbeat { interval: heartbeat_interval })
                    &&& (old(self).resumable() ==> (actions@[1] matches Action::SendResume {
                        session_id,
                        sequence,
                    } && session_id@ == old(self).session_id->0@ && sequence == old(
                        self,
                    ).sequence->0))
                    &&& (!old(self).resumable() ==> actions@[1] == Action::SendIdentify)
                },
                GatewayEvent::Dispatch { sequence, kind } => {
                    &&& final(self).sequence == Some(sequence)
                    &&& match kind {
                        DispatchKind::Ready { session_id } => final(self).session_id matches Some(
                            sid,
                        ) && sid@ == session_id@ && final(self).stage == Stage::Connected,
                        DispatchKind::Resumed => final(self).session_id == old(self).session_id
                            && final(self).stage == Stage::Connected,
                        DispatchKind::Other => final(self).session_id == old(self).session_id
                            && final(self).stage == old(self).stage,
                    }
                    &&& final(self).heartbeat_interval == old(self).heartbeat_interval
                    &&& final(self).last_heartbeat_sent == old(self).last_heartbeat_sent
                    &&& final(self).last_heartbeat_acked == old(self).last_heartbeat_acked
                    &&& final(self).latency == old(self).latency
                    &&& final(self).outbound == old(self).outbound
                    &&& actions@ =~= seq![Action::EmitEvent { sequence }]
                },
                GatewayEvent::Heartbeat => {
                    &&& *final(self) == *old(self)
                    &&& actions@ =~= seq![
                        Action::SendHeartbeat { sequence: old(self).sequence },
                    ]
                },
                GatewayEvent::HeartbeatAck => {
                    &&& *final(self) == (Session {
                        last_heartbeat_acked: Some(now),
                        latency: final(self).latency,
                        ..*old(self)
                    })
                    &&& final(self).latency@ == match old(self).last_heartbeat_sent {
                        Some(sent) => ring_after(old(self).latency@, (now - sent) as u64),
                        None => old(self).latency@,
                    }
                    &&& actions@ =~= Seq::<Action>::empty()
                },
                GatewayEvent::Reconnect => {
                    &&& *final(self) == (Session { stage: Stage::Resuming, ..*old(self) })
                    &&& actions@ =~= seq![Action::Reconnect { resumable: true }]
                },
                GatewayEvent::InvalidSession { resumable } => {
                    if resumable {
                        &&& *final(self) == (Session { stage: Stage::Resuming, ..*old(self) })
                        &&& actions@ =~= seq![Action::Reconnect { resumable: true }]
                    } else {
                        &&& *final(self) == (Session {
                            stage: Stage::Identifying,
                            session_id: None,
                            sequence: None,
                            ..*old(self)
                        })
                        &&& actions@ =~= seq![Action::SendIdentify]
                    }
                },
            },
    {
        let mut actions: Vec<Action> = Vec::new();
        match event {
            GatewayEvent::Hello { heartbeat_interval } => {
                self.heartbeat_interval = heartbeat_interval;
                actions.push(Action::StartHeartbeat { interval: heartbeat_interval });
                let resume = match (&self.session_id, &self.sequence) {
                    (Some(sid), Some(seq)) => Some((sid.clone(), *seq)),
                    _ => None,
                };
                match resume {
                    Some((session_id, sequence)) => {
                        self.stage = Stage::Resuming;
                        actions.push(Action::SendResume { session_id, sequence });
                    },
                    None => {
                        self.stage = Stage::Identifying;
                        actions.push(Action::SendIdentify);
                    },
                }
            },
            GatewayEvent::Dispatch { sequence, kind } => {
                self.sequence = Some(sequence);
                match kind {
                    DispatchKind::Ready { session_id } => {
                        self.session_id = Some(session_id);
                        self.stage = Stage::Connected;
                    },
                    DispatchKind::Resumed => {
                        self.stage = Stage::Connected;
                    },
                    DispatchKind::Other => {},
                }
                actions.push(Action::EmitEvent { sequence });
            },
            GatewayEvent::Heartbeat => {
                actions.push(Action::SendHeartbeat { sequence: self.sequence });
            },
            GatewayEvent::HeartbeatAck => {
                match self.last_heartbeat_sent {
                    Some(sent) => {
                        let sample = now - sent;
                        self.latency.push(sample);
                        if self.latency.len() > LATENCY_SAMPLES {
                            self.latency.remove(0);
                            proof {
                                let pushed = old(self).latency@.push(sample);
                                assert(self.latency@ =~= pushed.drop_first());
                            }
                        }
                    },
                    None => {},
                }
                self.last_heartbeat_acked = Some(now);
            },
            GatewayEvent::Reconnect => {
                self.stage = Stage::Resuming;
                actions.push(Action::Reconnect { resumable: true });
            },
            GatewayEvent::InvalidSession { resumable } => {
                if resumable {
                    self.stage = Stage::Resuming;
                    actions.push(Action::Reconnect { resumable: true });
                } else {
                    self.session_id = None;
                    self.sequence = None;
                    self.stage = Stage::Identifying;
                    actions.push(Action::SendIdentify);
                }
            },
        }
        actions
    }

    /// The heartbeat ticker fired at monotonic time `now`.
    ///
    /// If the last heartbeat has waited a full interval without an
    /// acknowledgement, the session is a zombie and must be force-closed and
    /// resumed. Otherwise a heartbeat is due, carrying the last sequence.
    pub fn on_heartbeat_tick(&mut self, now: u64) -> (actions: Vec<Action>)
        requires
            old(self).last_heartbeat_sent matches Some(t) ==> t <= now,
        ensures
            ({
                let missed = old(self).last_heartbeat_sent matches Some(sent) && (match old(
                    self,
                ).last_heartbeat_acked {
                    Some(acked) => acked < sent,
                    None => true,
                }) && now - sent >= old(self).heartbeat_interval;
                if missed {
                    &&& *final(self) == (Session { stage: Stage::Zombie, ..*old(self) })
                    &&& actions@ =~= seq![Action::Reconnect { resumable: true }]
                } else {
                    &&& *final(self) == (Session {
                        last_heartbeat_sent: Some(now),
                        ..*old(self)
                    })
                    &&& actions@ =~= seq![
                        Action::SendHeartbeat { sequence: old(self).sequence },
                    ]
                }
            }),
    {
        let mut actions: Vec<Action> = Vec::new();
        let missed = match self.last_heartbeat_sent {
            Some(sent) => {
                let unacked = match self.last_heartbeat_acked {
                    Some(acked) => acked < sent,
                    None => true,
                };
                unacked && now - sent >= self.heartbeat_interval
            },
            None => false,
        };
        if missed {
            self.stage = Stage::Zombie;
            actions.push(Action::Reconnect { resumable: true });
        } else {
            self.last_heartbeat_sent = Some(now);
            actions.push(Action::SendHeartbeat { sequence: self.sequence });
        }
        actions
    }

    /// Queue a raw frame for the session's single writer. Fails when no
    /// connection is open.
    pub fn send(&mut self, message: Message) -> (r: Result<(), SessionSendError>)
        ensures
            match r {
                Ok(()) => old(self).stage != Stage::Disconnected && *final(self) == (Session {
                    outbound: final(self).outbound,
                    ..*old(self)
                }) && final(self).outbound@ == old(self).outbound@.push(message),
                Err(SessionSendError::SessionInactive) => old(self).stage == Stage::Disconnected
                    && *final(self) == *old(self),
            },
    {
        if matches!(self.stage, Stage::Disconnected) {
            return Err(SessionSendError::SessionInactive);
        }
        self.outbound.push(message);
        Ok(())
    }

    /// Queue a command, already serialized to text, as a text frame.
    pub fn command(&mut self, json: String) -> (r: Result<(), SessionSendError>)
        ensures
            match r {
                Ok(()) => old(self).stage != Stage::Disconnected && *final(self) == (Session {
                    outbound: final(self).outbound,
                    ..*old(self)
                }) && final(self).outbound@ == old(self).outbound@.push(Message::Text(json)),
                Err(SessionSendError::SessionInactive) => old(self).stage == Stage::Disconnected
                    && *final(self) == *old(self),
            },
    {
        self.send(Message::Text(json))
    }

    /// The resume token this session would hand back: present exactly when a
    /// Ready issued a session id and a sequenced dispatch has been observed.
    pub fn resume_token(&self) -> (r: Option<ResumeSession>)
        ensures
            match r {
                Some(rs) => self.resumable() && rs.session_id@ == self.session_id->0@
                    && rs.sequence == self.sequence->0,
                None => !self.resumable(),
            },
    {
        match (&self.session_id, &self.sequence) {
            (Some(sid), Some(seq)) => Some(
                ResumeSession { session_id: sid.clone(), sequence: *seq },
            ),
            _ => None,
        }
    }

    /// Shut the session down, discarding the resumable state.
    pub fn shutdown(&mut self)
        ensures
            *final(self) == (Session {
                stage: Stage::Disconnected,
                session_id: None,
                sequence: None,
                last_heartbeat_sent: None,
                last_heartbeat_acked: None,
                ..*old(self)
            }),
    {
        self.stage = Stage::Disconnected;
        self.session_id = None;
        self.sequence = None;
        self.last_heartbeat_sent = None;
        self.last_heartbeat_acked = None;
    }

    /// Shut the session down, returning the resume token if the session had
    /// one. The connection is closed without a terminal close code, so the
    /// server keeps the session alive for a resume.
    pub fn shutdown_resumable(&mut self) -> (r: Option<ResumeSession>)
        ensures
            match r {
                Some(rs) => old(self).resumable() && rs.session_id@ == old(self).session_id->0@
                    && rs.sequence == old(self).sequence->0,
                None => !old(self).resumable(),
            },
            *final(self) == (Session {
                stage: Stage::Disconnected,
                last_heartbeat_sent: None,
                last_heartbeat_acked: None,
                ..*old(self)
            }),
    {
        let token = self.resume_token();
        self.stage = Stage::Disconnected;
        self.last_heartbeat_sent = None;
        self.last_heartbeat_acked = None;
        token
    }

    /// Mean of the recent heartbeat round-trips, if any have been measured.
    pub fn latency_average(&self) -> (r: Option<u64>)
        ensures
            match r {
                Some(avg) => self.latency@.len() > 0 && avg == sum_of(self.latency@) / (
                self.latency@.len() as int),
                None => self.latency@.len() == 0,
            },
    {
        let n = self.latency.len();
        if n == 0 {
            return None;
        }
        let mut sum: u128 = 0;
        let mut i: usize = 0;
        while i < n
            invariant
                0 <= i <= n,
                n == self.latency@.len(),
                sum == sum_of(self.latency@.subrange(0, i as int)),
                sum <= (i as int) * (u64::MAX as int),
            decreases n - i,
        {
            proof {
                assert(self.latency@.subrange(0, i as int + 1).drop_last() =~= self.latency@
                    .subrange(0, i as int));
                assert((i as int) * (u64::MAX as int) + (u64::MAX as int) == ((i + 1) as int) * (
                u64::MAX as int)) by (nonlinear_arith);
                assert(((i + 1) as int) * (u64::MAX as int) <= (n as int) * (u64::MAX as int))
                    by (nonlinear_arith)
                    requires
                        0 <= i + 1 <= n,
                ;
                assert((n as int) * (u64::MAX as int) < u128::MAX) by (nonlinear_arith)
                    requires
                        n <= usize::MAX,
                ;
            }
            sum = sum + self.latency[i] as u128;
            i = i + 1;
        }
        proof {
            assert(self.latency@.subrange(0, n as int) =~= self.latency@);
            assert(sum / (n as u128) <= u64::MAX as u128) by (nonlinear_arith)
                requires
                    n > 0,
                    sum <= (n as int) * (u64::MAX as int),
            ;
        }
        let avg = (sum / n as u128) as u64;
        proof {
            assert(avg as int == sum_of(self.latency@) / (self.latency@.len() as int));
        }
        Some(avg)
    }

    /// Observable state of the session.
    pub fn info(&self) -> (r: Information)
        ensures
            r.id == self.shard_id,
            r.stage == self.stage,
            match r.latency_average {
                Some(avg) => self.latency@.len() > 0 && avg == sum_of(self.latency@) / (
                self.latency@.len() as int),
                None => self.latency@.len() == 0,
            },
            r.latency_recent@ == self.latency@,
            match r.session_id {
                Some(s) => self.session_id matches Some(own) && s@ == own@,
                None => self.session_id is None,
            },
            r.sequence == self.sequence,
    {
        let n = self.latency.len();
        let mut latency_recent: Vec<u64> = Vec::new();
        let mut i: usize = 0;
        while i < n
            invariant
                0 <= i <= n,
                n == self.latency@.len(),
                latency_recent@ =~= self.latency@.subrange(0, i as int),
            decreases n - i,
        {
            proof {
                assert(self.latency@.subrange(0, i as int + 1) =~= self.latency@.subrange(
                    0,
                    i as int,
                ).push(self.latency@[i as int]));
            }
            latency_recent.push(self.latency[i]);
            i = i + 1;
        }
        proof {
            assert(self.latency@.subrange(0, n as int) =~= self.latency@);
        }
        let session_id = match &self.session_id {
            Some(s) => Some(s.clone()),
            None => None,
        };
        Information {
            id: self.shard_id,
            stage: self.stage,
            latency_average: self.latency_average(),
            latency_recent,
            session_id,
            sequence: self.sequence,
        }
    }
}

} // verus!
