use game_rl::console::{
    check_auth_reply, decimal, signed_decimal, lua_command, quoted, register_args, remote_call_code, reply_size,
    reset_args, should_retry, step_args, ConsoleSession,
};
use game_rl::error::{ErrorKind, GameRLError};
use game_rl::rcon::{PacketType, RconPacket};

#[test]
fn test_packet_serialization() {
    let packet = RconPacket::new(1, PacketType::Auth, "password123");
    let bytes = packet.to_bytes();

    // Size should be 4 + 4 + 11 + 2 = 21
    assert_eq!(bytes.len(), 4 + 21);

    let size = i32::from_le_bytes([bytes[0], bytes[1], bytes[2], bytes[3]]);
    assert_eq!(size, 21);

    let ptype = i32::from_le_bytes([bytes[8], bytes[9], bytes[10], bytes[11]]);
    assert_eq!(ptype, PacketType::Auth.as_i32());
}

#[test]
fn test_packet_deserialization() {
    let original = RconPacket::new(42, PacketType::ExecCommand, "test command");
    let bytes = original.to_bytes();

    // Skip size prefix (first 4 bytes)
    let parsed = RconPacket::from_bytes(&bytes[4..]).unwrap();

    assert_eq!(parsed.id, 42);
    assert_eq!(parsed.packet_type, PacketType::ExecCommand.as_i32());
    assert_eq!(parsed.body, "test command");
}

#[test]
fn packet_type_wire_values() {
    assert_eq!(PacketType::ExecCommand.as_i32(), 2);
    assert_eq!(PacketType::Auth.as_i32(), 3);
}

#[test]
fn packet_size_empty_body() {
    let bytes = RconPacket::new(7, PacketType::ExecCommand, "").to_bytes();
    assert_eq!(bytes, vec![10, 0, 0, 0, 7, 0, 0, 0, 2, 0, 0, 0, 0, 0]);
}

#[test]
fn packet_size_multibyte_body() {
    // "é" is two bytes of UTF-8: the size counts bytes, not characters.
    let bytes = RconPacket::new(-5, PacketType::Auth, "é").to_bytes();
    assert_eq!(bytes.len(), 4 + 8 + 2 + 2);
    assert_eq!(i32::from_le_bytes([bytes[0], bytes[1], bytes[2], bytes[3]]), 12);
    let parsed = RconPacket::from_bytes(&bytes[4..]).unwrap();
    assert_eq!(parsed.id, -5);
    assert_eq!(parsed.body, "é");
}

#[test]
fn packet_too_short() {
    let r = RconPacket::from_bytes(&[1, 0, 0, 0, 2, 0, 0, 0, 0]);
    assert!(matches!(r, Err(GameRLError::ProtocolError(_))));
}

#[test]
fn packet_body_stops_at_first_zero() {
    let data = [9, 0, 0, 0, 0, 0, 0, 0, b'h', b'i', 0, b'x', 0, 0];
    let p = RconPacket::from_bytes(&data).unwrap();
    assert_eq!(p.id, 9);
    assert_eq!(p.packet_type, 0);
    assert_eq!(p.body, "hi");
}

#[test]
fn packet_body_without_terminator() {
    let data = [1, 0, 0, 0, 2, 0, 0, 0, b'a', b'b'];
    let p = RconPacket::from_bytes(&data).unwrap();
    assert_eq!(p.body, "ab");
}

#[test]
fn packet_body_invalid_utf8_is_replaced() {
    let data = [1, 0, 0, 0, 2, 0, 0, 0, 0xff, b'a', 0, 0];
    let p = RconPacket::from_bytes(&data).unwrap();
    assert_eq!(p.body, "\u{fffd}a");
}

#[test]
fn negative_id_round_trip() {
    let bytes = RconPacket::new(-1, PacketType::ExecCommand, "x").to_bytes();
    let p = RconPacket::from_bytes(&bytes[4..]).unwrap();
    assert_eq!(p.id, -1);
}

#[test]
fn auth_reply_minus_one_is_authentication_failure() {
    let e = check_auth_reply(-1).unwrap_err();
    assert_eq!(e.kind(), ErrorKind::AuthenticationFailed);
    assert_ne!(e.kind(), ErrorKind::ConnectionLost);
    assert_ne!(e.kind(), ErrorKind::ProtocolError);
    assert!(check_auth_reply(1).is_ok());
    assert!(check_auth_reply(0).is_ok());
}

#[test]
fn reply_size_ceiling() {
    assert_eq!(reply_size(&4096i32.to_le_bytes()).unwrap(), 4096);
    assert_eq!(reply_size(&10i32.to_le_bytes()).unwrap(), 10);
    assert!(matches!(reply_size(&4097i32.to_le_bytes()), Err(GameRLError::ProtocolError(_))));
    assert!(matches!(reply_size(&(-3i32).to_le_bytes()), Err(GameRLError::ProtocolError(_))));
}

#[test]
fn session_ids_and_authentication() {
    let mut s = ConsoleSession::new();
    assert!(!s.is_connected());
    assert!(matches!(s.begin_command("x"), Err(GameRLError::IpcError(_))));
    let auth = s.begin_auth("secret");
    assert_eq!(auth.id, 1);
    assert_eq!(auth.packet_type, 3);
    assert_eq!(auth.body, "secret");
    assert!(s.on_auth_reply(1).is_ok());
    assert!(s.is_connected());
    let cmd = s.begin_command("/c rcon.print(1)").unwrap();
    assert_eq!(cmd.id, 2);
    assert_eq!(cmd.packet_type, 2);
    assert_eq!(cmd.body, "/c rcon.print(1)");
    s.mark_disconnected();
    assert!(!s.is_connected());
    let again = s.begin_auth("secret");
    assert_eq!(again.id, 3);
    assert!(matches!(s.on_auth_reply(-1), Err(GameRLError::AuthenticationFailed(_))));
    assert!(!s.is_connected());
}

#[test]
fn retry_once_on_lost_connection_only() {
    let lost = GameRLError::IpcError("Broken pipe".to_string());
    assert!(should_retry(&lost, false));
    assert!(!should_retry(&lost, true));
    let auth = GameRLError::AuthenticationFailed("x".to_string());
    assert!(!should_retry(&auth, false));
    let proto = GameRLError::ProtocolError("x".to_string());
    assert!(!should_retry(&proto, false));
}

#[test]
fn command_text() {
    assert_eq!(lua_command("rcon.print(1)"), "/c rcon.print(1)");
    assert_eq!(
        remote_call_code("gamerl", "init", ""),
        "remote.call(\"gamerl\", \"init\", )"
    );
    assert_eq!(
        remote_call_code("gamerl", "shutdown", "{}"),
        "remote.call(\"gamerl\", \"shutdown\", {})"
    );
}

#[test]
fn decimal_text() {
    assert_eq!(decimal(0), "0");
    assert_eq!(decimal(7), "7");
    assert_eq!(decimal(10), "10");
    assert_eq!(decimal(60), "60");
    assert_eq!(decimal(1234567890), "1234567890");
    assert_eq!(decimal(u64::MAX), "18446744073709551615");
    assert_eq!(signed_decimal(-7), "-7");
    assert_eq!(signed_decimal(0), "0");
    assert_eq!(signed_decimal(i32::MAX), "2147483647");
}

#[test]
fn remote_call_arguments() {
    assert_eq!(quoted("agent1"), "\"agent1\"");
    assert_eq!(
        remote_call_code("gamerl", "step", &step_args("agent1", r#"{"Type":"Noop"}"#, 60)),
        r#"remote.call("gamerl", "step", "agent1", '{"Type":"Noop"}', 60)"#
    );
    assert_eq!(
        register_args("p1", "Player", "{}"),
        r#""p1", "Player", '{}'"#
    );
    assert_eq!(reset_args(Some(42), Some("tutorial")), r#"42, "tutorial""#);
    assert_eq!(reset_args(None, None), "nil, nil");
    assert_eq!(reset_args(None, Some("x")), r#"nil, "x""#);
}
