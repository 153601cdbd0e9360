use game_rl::agent::{default_observation_profile, AgentStatus, AgentType};
use game_rl::demux::{Demux, MessageKind, Route};
use game_rl::error::{ErrorKind, GameRLError};
use game_rl::filepoll::{not_connected, response_timeout};
use game_rl::frame::{frame_length, frame_message};
use game_rl::observe::{digest_hex, resolve_state_hash, TickTracker};
use game_rl::protocol::{
    batch_missing_agent, domain_error, unexpected_reply, check_handshake, check_reply, find_agent_result, kind_of, MessageTag, Operation, ReplyCheck,
};
use game_rl::reconnect::{reconnect_exhausted, BackoffPolicy, Reconnect, ReconnectStep};
use game_rl::registry::{AgentRegistry, RegistryError};

#[test]
fn fifo_replies_reach_callers_in_order() {
    let mut d = Demux::new();
    for slot in 1..=5u64 {
        d.register(slot);
    }
    let mut got = Vec::new();
    for i in 0..5 {
        if i == 2 {
            assert_eq!(d.on_message(MessageKind::Push), Route::Broadcast);
        }
        match d.on_message(MessageKind::Reply) {
            Route::Deliver(s) => got.push(s),
            other => panic!("unexpected route {:?}", other),
        }
    }
    assert_eq!(got, vec![1, 2, 3, 4, 5]);
    assert_eq!(d.pending_count(), 0);
    assert_eq!(d.on_message(MessageKind::Reply), Route::Unmatched);
    assert_eq!(d.dropped_pushes(), 0);
    d.record_dropped_push();
    d.record_dropped_push();
    assert_eq!(d.dropped_pushes(), 2);
    assert_eq!(d.pending_count(), 0);
}

#[test]
fn undecodable_fails_oldest_and_read_failure_drains() {
    let mut d = Demux::new();
    d.register(10);
    d.register(11);
    d.register(12);
    assert_eq!(d.on_message(MessageKind::Undecodable), Route::Fail(10));
    assert_eq!(d.drain(), vec![11, 12]);
    assert_eq!(d.pending_count(), 0);
    assert_eq!(d.on_message(MessageKind::Undecodable), Route::Unmatched);
}

#[test]
fn reconnect_gives_up_after_ceiling() {
    let policy = BackoffPolicy::standard();
    let mut r = Reconnect::new(policy);
    let mut delays = Vec::new();
    let mut gave_up_at = None;
    for attempt in 1..=8u32 {
        match r.on_failure() {
            ReconnectStep::Retry { delay_ms } => {
                assert!(delay_ms <= policy.max_delay_ms);
                delays.push(delay_ms);
            }
            ReconnectStep::GiveUp => {
                if gave_up_at.is_none() {
                    gave_up_at = Some(attempt);
                }
            }
        }
    }
    assert_eq!(gave_up_at, Some(5));
    assert_eq!(delays, vec![100, 200, 400, 800]);
    assert_eq!(reconnect_exhausted().kind(), ErrorKind::ConnectionLost);
}

#[test]
fn reconnect_delay_is_capped() {
    let policy = BackoffPolicy { max_attempts: 10, initial_delay_ms: 1000, max_delay_ms: 3000 };
    let mut r = Reconnect::new(policy);
    let mut delays = Vec::new();
    while let ReconnectStep::Retry { delay_ms } = r.on_failure() {
        delays.push(delay_ms);
    }
    assert_eq!(delays, vec![1000, 2000, 3000, 3000, 3000, 3000, 3000, 3000, 3000]);
    r.on_success();
    assert_eq!(r.on_failure(), ReconnectStep::Retry { delay_ms: 1000 });
}

#[test]
fn registry_capacity() {
    let mut reg = AgentRegistry::new(2);
    assert!(reg.register("a".to_string(), AgentType::Player, "1700000000".to_string()).is_ok());
    assert!(reg.register("b".to_string(), AgentType::GameMaster, "1700000000".to_string()).is_ok());
    assert!(matches!(
        reg.register("c".to_string(), AgentType::Player, "1700000000".to_string()),
        Err(RegistryError::CapacityExceeded)
    ));
    assert!(reg.register("a".to_string(), AgentType::CombatDirector, "1700000000".to_string()).is_ok());
    assert_eq!(reg.count(), 2);
    assert_eq!(reg.get(&"a".to_string()).unwrap().agent_type, AgentType::Player);
    assert_eq!(reg.available_slots(), 0);
}

#[test]
fn registry_lifecycle() {
    let mut reg = AgentRegistry::new(3);
    reg.register("x".to_string(), AgentType::Custom("scout".to_string()), "1700000000".to_string()).unwrap();
    let e = reg.get(&"x".to_string()).unwrap();
    assert_eq!(e.status, AgentStatus::Registered);
    assert_eq!(e.last_step, 0);
    assert_eq!(e.registered_at, "1700000000");
    reg.record_step(&"x".to_string());
    reg.record_step(&"x".to_string());
    reg.record_step(&"nobody".to_string());
    reg.set_status(&"x".to_string(), AgentStatus::Active);
    let e = reg.get(&"x".to_string()).unwrap();
    assert_eq!(e.last_step, 2);
    assert_eq!(e.status, AgentStatus::Active);
    assert_eq!(reg.list().len(), 1);
    assert_eq!(reg.available_slots(), 2);
    assert!(reg.deregister(&"x".to_string()).is_ok());
    assert!(matches!(reg.deregister(&"x".to_string()), Err(RegistryError::NotFound(id)) if id == "x"));
    assert!(reg.get(&"x".to_string()).is_none());
    assert_eq!(reg.count(), 0);
}

#[test]
fn registry_zero_capacity() {
    let mut reg = AgentRegistry::new(0);
    assert!(matches!(reg.register("a".to_string(), AgentType::Player, "1700000000".to_string()), Err(RegistryError::CapacityExceeded)));
}

#[test]
fn tick_monotonicity() {
    let mut t = TickTracker::new();
    let emitted: Vec<u64> = [5u64, 5, 7, 6, 9].iter().copied().filter(|&k| t.observe(k)).collect();
    assert_eq!(emitted, vec![5, 7, 9]);
    assert_eq!(t.last_tick(), 9);
}

#[test]
fn tick_zero_is_not_new() {
    let mut t = TickTracker::new();
    assert!(!t.observe(0));
    assert!(t.observe(1));
}

#[test]
fn frame_round_trip() {
    let f = frame_message(b"hello");
    assert_eq!(f, vec![5, 0, 0, 0, b'h', b'e', b'l', b'l', b'o']);
    assert_eq!(frame_length(&f[0..4]).unwrap(), 5);
    assert_eq!(frame_message(b""), vec![0, 0, 0, 0]);
}

#[test]
fn frame_length_limit() {
    assert_eq!(frame_length(&(64u32 * 1024 * 1024).to_le_bytes()).unwrap(), 64 * 1024 * 1024);
    assert!(matches!(
        frame_length(&(64u32 * 1024 * 1024 + 1).to_le_bytes()),
        Err(GameRLError::IpcError(_))
    ));
    assert!(frame_length(&u32::MAX.to_le_bytes()).is_err());
}

#[test]
fn error_codes_and_text() {
    assert_eq!(GameRLError::AgentNotRegistered("a".to_string()).rpc_code(), -32000);
    assert_eq!(GameRLError::InvalidAction("a".to_string()).rpc_code(), -32001);
    assert_eq!(GameRLError::EpisodeTerminated.rpc_code(), -32002);
    assert_eq!(GameRLError::SyncTimeout.rpc_code(), -32003);
    assert_eq!(GameRLError::ResourceExhausted("a".to_string()).rpc_code(), -32004);
    assert_eq!(GameRLError::IpcError("a".to_string()).rpc_code(), -32603);
    assert_eq!(GameRLError::IpcError("Connection lost".to_string()).to_string(), "IPC error: Connection lost");
    assert_eq!(GameRLError::EpisodeTerminated.to_string(), "Episode terminated, call reset");
    assert_eq!(GameRLError::GameError("Error 3: x".to_string()).kind(), ErrorKind::DomainError);
    assert_eq!(GameRLError::SerializationError("x".to_string()).kind(), ErrorKind::SerializationError);
}

#[test]
fn reply_variants() {
    assert_eq!(check_reply(Operation::Step, MessageTag::StepResult), ReplyCheck::Accepted);
    assert_eq!(check_reply(Operation::Step, MessageTag::BatchStepResult), ReplyCheck::Accepted);
    assert_eq!(check_reply(Operation::Reset, MessageTag::Error), ReplyCheck::Domain);
    assert_eq!(check_reply(Operation::StateHash, MessageTag::Ready), ReplyCheck::Unexpected);
    assert_eq!(check_reply(Operation::RegisterAgent, MessageTag::AgentRegistered), ReplyCheck::Accepted);
    assert_eq!(check_reply(Operation::ConfigureStreams, MessageTag::StreamsConfigured), ReplyCheck::Accepted);
    assert!(check_handshake(MessageTag::Ready).is_ok());
    assert!(matches!(check_handshake(MessageTag::StateHash), Err(GameRLError::ProtocolError(_))));
    assert_eq!(kind_of(MessageTag::StateUpdate), MessageKind::Push);
    assert_eq!(kind_of(MessageTag::StateHash), MessageKind::Reply);
}

#[test]
fn batch_lookup() {
    let ids = vec!["a".to_string(), "b".to_string(), "b".to_string()];
    assert_eq!(find_agent_result(&ids, &"b".to_string()), Some(1));
    assert_eq!(find_agent_result(&ids, &"z".to_string()), None);
}

#[test]
fn state_hash_sources() {
    assert_eq!(resolve_state_hash("  00b866e0 \n", None).unwrap(), "00b866e0");
    assert_eq!(
        resolve_state_hash("", Some(b"abc")).unwrap(),
        "ba7816bf8f01cfea414140de5dae2223b00361a396177a9cb410ff61f20015ad"
    );
    assert!(matches!(resolve_state_hash("", None), Err(GameRLError::GameError(_))));
    assert_eq!(resolve_state_hash("\u{a0}\u{3000}ab c\t\r", None).unwrap(), "ab c");
    assert_eq!(digest_hex(&[0x00, 0xb8, 0x66, 0xe0, 0xff]), "00b866e0ff");
}

#[test]
fn defaults() {
    assert_eq!(default_observation_profile(), "default");
}

#[test]
fn error_texts() {
    assert!(matches!(domain_error(3, "no such agent"), GameRLError::GameError(s) if s == "Error 3: no such agent"));
    assert!(matches!(domain_error(-32000, "x"), GameRLError::GameError(s) if s == "Error -32000: x"));
    assert!(matches!(domain_error(i32::MIN, ""), GameRLError::GameError(s) if s == "Error -2147483648: "));
    assert!(matches!(unexpected_reply(), GameRLError::ProtocolError(s) if s == "Unexpected response"));
    assert!(matches!(batch_missing_agent(), GameRLError::ProtocolError(s) if s == "BatchStepResult missing requested agent"));
    assert!(matches!(response_timeout(), GameRLError::IpcError(s) if s == "Response timeout"));
    assert!(matches!(not_connected(), GameRLError::IpcError(s) if s == "Not connected"));
    assert!(matches!(reconnect_exhausted(), GameRLError::IpcError(s) if s == "Failed to reconnect after max attempts"));
    assert!(matches!(check_handshake(MessageTag::Error), Err(GameRLError::ProtocolError(s)) if s == "Expected Ready message"));
}
