//! Tests for the shard session state machine, the identify queue, the
//! resume token, and the cluster.

use discord_core::gateway::cluster::{
    scheme_from_recommended, Cluster, ClusterCommandErrorType, ClusterSendErrorType, ShardScheme,
};
use discord_core::gateway::queue::{IdentifyQueue, IDENTIFY_PERIOD};
use discord_core::gateway::resume::ResumeSession;
use discord_core::gateway::session::{
    close_code_resumable, Action, DispatchKind, GatewayEvent, Message, OpCode, Session, Stage,
};
use discord_core::gateway::shard_builder::{LargeThresholdError, ShardBuilder, ShardIdError};

#[test]
fn identify_then_ready() {
    // the single-shard bring-up: Hello asks for an identify, Ready connects
    let mut session = Session::new(0, 1, None);
    session.begin_connect();
    assert_eq!(Stage::Connecting, session.stage);

    let actions = session.process_event(GatewayEvent::Hello { heartbeat_interval: 45000 }, 0);
    assert_eq!(Stage::Identifying, session.stage);
    assert!(matches!(actions[0], Action::StartHeartbeat { interval: 45000 }));
    assert!(matches!(actions[1], Action::SendIdentify));

    let actions = session.process_event(
        GatewayEvent::Dispatch {
            sequence: 1,
            kind: DispatchKind::Ready { session_id: String::from("S") },
        },
        10,
    );
    assert_eq!(Stage::Connected, session.stage);
    assert_eq!(Some(String::from("S")), session.session_id);
    assert_eq!(Some(1), session.sequence);
    assert!(matches!(actions[0], Action::EmitEvent { sequence: 1 }));
}

#[test]
fn resume_after_reconnect() {
    // a shard seeded with a session resumes instead of identifying
    let resume = ResumeSession { session_id: String::from("S"), sequence: 42 };
    let mut session = Session::new(0, 1, Some(resume));
    session.begin_connect();
    let actions = session.process_event(GatewayEvent::Hello { heartbeat_interval: 45000 }, 0);
    assert_eq!(Stage::Resuming, session.stage);
    assert!(matches!(
        &actions[1],
        Action::SendResume { session_id, sequence: 42 } if session_id == "S"
    ));

    let actions =
        session.process_event(GatewayEvent::Dispatch { sequence: 43, kind: DispatchKind::Resumed }, 5);
    assert_eq!(Stage::Connected, session.stage);
    assert!(matches!(actions[0], Action::EmitEvent { sequence: 43 }));
}

#[test]
fn invalid_session_not_resumable_clears_state() {
    let resume = ResumeSession { session_id: String::from("S"), sequence: 42 };
    let mut session = Session::new(0, 1, Some(resume));
    let actions = session.process_event(GatewayEvent::InvalidSession { resumable: false }, 0);
    assert_eq!(Stage::Identifying, session.stage);
    assert_eq!(None, session.session_id);
    assert_eq!(None, session.sequence);
    assert!(matches!(actions[0], Action::SendIdentify));
}

#[test]
fn invalid_session_resumable_resumes() {
    let resume = ResumeSession { session_id: String::from("S"), sequence: 42 };
    let mut session = Session::new(0, 1, Some(resume));
    let actions = session.process_event(GatewayEvent::InvalidSession { resumable: true }, 0);
    assert_eq!(Stage::Resuming, session.stage);
    assert!(matches!(actions[0], Action::Reconnect { resumable: true }));
}

#[test]
fn heartbeat_tick_and_zombie() {
    let mut session = Session::new(0, 1, None);
    session.begin_connect();
    session.process_event(GatewayEvent::Hello { heartbeat_interval: 45000 }, 0);
    // first tick sends a heartbeat
    let actions = session.on_heartbeat_tick(100);
    assert!(matches!(actions[0], Action::SendHeartbeat { .. }));
    assert_eq!(Some(100), session.last_heartbeat_sent);
    // the acknowledgement arrives and records a latency sample
    session.process_event(GatewayEvent::HeartbeatAck, 150);
    assert_eq!(Some(150), session.last_heartbeat_acked);
    assert_eq!(vec![50], session.latency);
    // another heartbeat goes unacknowledged for a full interval: zombie
    let actions = session.on_heartbeat_tick(45100);
    assert!(matches!(actions[0], Action::SendHeartbeat { .. }));
    let actions = session.on_heartbeat_tick(90100);
    assert_eq!(Stage::Zombie, session.stage);
    assert!(matches!(actions[0], Action::Reconnect { resumable: true }));
}

#[test]
fn latency_average_over_samples() {
    let mut session = Session::new(0, 1, None);
    assert_eq!(None, session.latency_average());
    session.latency = vec![10, 20, 30];
    assert_eq!(Some(20), session.latency_average());
    let info = session.info();
    assert_eq!(0, info.id);
    assert_eq!(Some(20), info.latency_average);
}

#[test]
fn server_heartbeat_request_answered() {
    let mut session = Session::new(0, 1, None);
    session.sequence = Some(7);
    let actions = session.process_event(GatewayEvent::Heartbeat, 0);
    assert!(matches!(actions[0], Action::SendHeartbeat { sequence: Some(7) }));
}

#[test]
fn resume_token_requires_both_parts() {
    let mut session = Session::new(0, 1, None);
    assert!(session.resume_token().is_none());
    session.session_id = Some(String::from("S"));
    assert!(session.resume_token().is_none());
    session.sequence = Some(7);
    let token = session.resume_token().unwrap();
    assert_eq!("S", token.session_id);
    assert_eq!(7, token.sequence);
}

#[test]
fn resume_encode_decode_is_identity() {
    let token = ResumeSession { session_id: String::from("se:ss/ion 42"), sequence: 42 };
    let encoded = token.encode();
    assert_eq!("42:se:ss/ion 42", encoded);
    let decoded = ResumeSession::decode(encoded.as_str()).unwrap();
    assert_eq!(token, decoded);
}

#[test]
fn resume_decode_rejects_malformed() {
    assert!(ResumeSession::decode("").is_none());
    assert!(ResumeSession::decode("42").is_none());
    assert!(ResumeSession::decode(":abc").is_none());
    assert!(ResumeSession::decode("4x2:abc").is_none());
}

#[test]
fn identify_queue_spaces_grants() {
    // across any five-second window at most one identify leaves the queue
    let mut queue = IdentifyQueue::new();
    queue.enqueue(0);
    queue.enqueue(1);
    assert_eq!(Some(0), queue.grant_next(1000));
    // re-entry within the period is refused
    assert_eq!(None, queue.grant_next(1000 + IDENTIFY_PERIOD - 1));
    assert_eq!(IDENTIFY_PERIOD, queue.time_until_grant(1000));
    assert_eq!(1, queue.time_until_grant(1000 + IDENTIFY_PERIOD - 1));
    // a full period later the next waiter goes, in arrival order
    assert_eq!(Some(1), queue.grant_next(1000 + IDENTIFY_PERIOD));
    assert_eq!(None, queue.grant_next(1000 + 2 * IDENTIFY_PERIOD));
}

#[test]
fn opcode_numbers_roundtrip() {
    let ops = [
        OpCode::Dispatch,
        OpCode::Heartbeat,
        OpCode::Identify,
        OpCode::Resume,
        OpCode::Reconnect,
        OpCode::InvalidSession,
        OpCode::Hello,
        OpCode::HeartbeatAck,
    ];
    for op in ops {
        assert_eq!(Some(op), OpCode::from_number(op.number()));
    }
    assert_eq!(None, OpCode::from_number(3));
    assert_eq!(None, OpCode::from_number(12));
}

#[test]
fn close_codes_decide_resumability() {
    for code in [4004u16, 4010, 4011, 4012, 4013, 4014] {
        assert!(!close_code_resumable(code));
    }
    for code in [1000u16, 4000, 4008, 4009] {
        assert!(close_code_resumable(code));
    }
}

#[test]
fn shard_builder_validates() {
    let builder = ShardBuilder::new(String::from("token"), 1);
    assert_eq!("Bot token", builder.0.token);
    assert!(matches!(
        builder.clone().large_threshold(49),
        Err(LargeThresholdError::TooFew { value: 49 })
    ));
    assert!(matches!(
        builder.clone().large_threshold(251),
        Err(LargeThresholdError::TooMany { value: 251 })
    ));
    let builder = builder.large_threshold(100).unwrap();
    assert_eq!(100, builder.0.large_threshold);
    assert!(matches!(
        builder.clone().shard(10, 10),
        Err(ShardIdError::IdTooLarge { id: 10, total: 10 })
    ));
    let session = builder.shard(5, 10).unwrap().build();
    assert_eq!(5, session.shard_id);
    assert_eq!(10, session.shard_total);
    assert_eq!(Stage::Disconnected, session.stage);
}

#[test]
fn cluster_build_and_lookup() {
    let builder = Cluster::builder(String::from("token"), 0)
        .shard_scheme(ShardScheme::Range { from: 2, to: 4, total: 8 });
    let cluster = builder.build();
    assert_eq!(3, cluster.shards().len());
    assert!(cluster.shard(1).is_none());
    assert!(cluster.shard(5).is_none());
    let shard = cluster.shard(3).unwrap();
    assert_eq!(3, shard.shard_id);
    assert_eq!(8, shard.shard_total);
}

#[test]
fn cluster_send_error_semantics() {
    let mut cluster = Cluster::builder(String::from("token"), 0)
        .shard_scheme(ShardScheme::Range { from: 0, to: 1, total: 2 })
        .build();
    // sending to an id outside the range names the id
    let err = cluster.send(7, Message::Close(None)).unwrap_err();
    assert!(matches!(*err.kind(), ClusterSendErrorType::ShardNonexistent { id: 7 }));
    // sending over a disconnected shard fails as a send fault
    let err = cluster.send(0, Message::Close(None)).unwrap_err();
    assert!(matches!(*err.kind(), ClusterSendErrorType::Sending));
    // a connected shard queues the frame
    cluster.up();
    assert!(cluster.send(0, Message::Text(String::from("hi"))).is_ok());
    assert_eq!(1, cluster.shard(0).unwrap().outbound.len());
    // commands share the same failure shape
    let err = cluster.command(9, String::from("{}")).unwrap_err();
    assert!(matches!(
        *err.kind(),
        ClusterCommandErrorType::ShardNonexistent { id: 9 }
    ));
    assert!(cluster.command(1, String::from("{}")).is_ok());
}

#[test]
fn cluster_down_resumable_returns_tokens() {
    // the resumable-shutdown scenario: only the shard that saw both a Ready
    // and a sequenced dispatch yields a token
    let mut cluster = Cluster::builder(String::from("token"), 0)
        .shard_scheme(ShardScheme::Range { from: 0, to: 1, total: 2 })
        .build();
    cluster.up();
    {
        let shard = &mut cluster.shards[0];
        shard.process_event(GatewayEvent::Hello { heartbeat_interval: 45000 }, 0);
        shard.process_event(
            GatewayEvent::Dispatch {
                sequence: 1,
                kind: DispatchKind::Ready { session_id: String::from("S") },
            },
            1,
        );
        shard.process_event(
            GatewayEvent::Dispatch { sequence: 7, kind: DispatchKind::Other },
            2,
        );
    }
    let tokens = cluster.down_resumable();
    assert_eq!(1, tokens.len());
    assert_eq!(0, tokens[0].0);
    assert_eq!("S", tokens[0].1.session_id);
    assert_eq!(7, tokens[0].1.sequence);
    assert_eq!(Stage::Disconnected, cluster.shard(0).unwrap().stage);
    // the session state is kept for the resume
    assert_eq!(Some(String::from("S")), cluster.shard(0).unwrap().session_id);
}

#[test]
fn cluster_down_discards_state() {
    let mut cluster = Cluster::builder(String::from("token"), 0)
        .shard_scheme(ShardScheme::Range { from: 0, to: 0, total: 1 })
        .build();
    cluster.up();
    cluster.shards[0].process_event(
        GatewayEvent::Dispatch {
            sequence: 3,
            kind: DispatchKind::Ready { session_id: String::from("S") },
        },
        0,
    );
    cluster.down();
    assert_eq!(None, cluster.shard(0).unwrap().session_id);
    assert_eq!(None, cluster.shard(0).unwrap().sequence);
}

#[test]
fn cluster_resume_seeding() {
    let resume = vec![(1u64, ResumeSession { session_id: String::from("R"), sequence: 9 })];
    let cluster = Cluster::builder(String::from("token"), 0)
        .shard_scheme(ShardScheme::Range { from: 0, to: 1, total: 2 })
        .resume_sessions(resume)
        .build();
    assert_eq!(None, cluster.shard(0).unwrap().session_id);
    assert_eq!(Some(String::from("R")), cluster.shard(1).unwrap().session_id);
    assert_eq!(Some(9), cluster.shard(1).unwrap().sequence);
}

#[test]
fn scheme_from_recommended_count() {
    let scheme = scheme_from_recommended(4);
    assert_eq!(ShardScheme::Range { from: 0, to: 3, total: 4 }, scheme);
    assert_eq!(Some((0, 3, 4)), scheme.bounds());
    assert_eq!(None, ShardScheme::Auto.bounds());
    assert_eq!(None, ShardScheme::Range { from: 3, to: 1, total: 4 }.bounds());
}

#[test]
fn cluster_info_lists_every_shard() {
    let cluster = Cluster::builder(String::from("token"), 0)
        .shard_scheme(ShardScheme::Range { from: 0, to: 2, total: 3 })
        .build();
    let info = cluster.info();
    assert_eq!(3, info.len());
    assert_eq!(0, info[0].0);
    assert_eq!(Stage::Disconnected, info[0].1.stage);
}
