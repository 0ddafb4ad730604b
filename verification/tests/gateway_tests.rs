//! The coordinator's receive-loop behavior: session tracking, the
//! identify-versus-resume decision, heartbeat supervision, and fatal errors.

use panda::config::Config;
use panda::coordinator::{Coordinator, GatewayPhase, Outcome};
use panda::error::PandaError;
use panda::events::{
    classify_close_code, opcode_kind, Command, DispatchEvent, Event, FrameKind, GuildRoleUpdate,
    Ready, Role,
};
use panda::heartbeat::{heartbeat_command, next_beat_deadline, nth_beat_deadline};
use panda::session::Session;

fn connected(token: &str, interval: u64) -> Coordinator {
    let mut c = Coordinator::new(token, Config::new_default());
    c.on_hello(interval);
    c.clean_connect();
    c
}

fn dispatch(seq: u64) -> Event {
    Event::Dispatch(DispatchEvent::Unhandled("MESSAGE_CREATE".to_string()), Some(seq))
}

#[test]
fn session_starts_empty_and_resumable() {
    let s = Session::new();
    assert_eq!(s.id, "");
    assert!(s.resumable);
    assert_eq!(s.last_sequence, None);
}

#[test]
fn session_sequence_only_advances() {
    let mut s = Session::new();
    s.observe_sequence(5);
    assert_eq!(s.last_sequence, Some(5));
    s.observe_sequence(3);
    assert_eq!(s.last_sequence, Some(5));
    s.observe_sequence(9);
    assert_eq!(s.last_sequence, Some(9));
}

#[test]
fn increasing_dispatches_leave_the_maximum_sequence() {
    let mut c = connected("t", 100);
    for seq in [3u64, 5, 9] {
        c.handle_event(dispatch(seq));
    }
    assert_eq!(c.session.last_sequence, Some(9));
}

#[test]
fn ready_dispatch_stores_the_session_id() {
    let mut c = connected("t", 41250);
    let ev = Event::Dispatch(
        DispatchEvent::Ready(Ready { session_id: "abc123".to_string() }),
        Some(1),
    );
    let out = c.handle_event(ev);
    assert!(matches!(out, Outcome::Forward(DispatchEvent::Ready(_))));
    assert_eq!(c.session.id, "abc123");
}

#[test]
fn connect_scenario_hello_identify_ready() {
    let mut c = Coordinator::new("token123", Config::new_default());
    c.on_hello(41250);
    assert_eq!(c.heartbeat_interval, 41250);
    assert_eq!(c.phase, GatewayPhase::Handshaking);
    let cmd = c.clean_connect();
    assert_eq!(
        cmd,
        Command::Identify {
            token: "Bot token123".to_string(),
            large_threshold: 250,
            guild_subscriptions: true,
            shard_id: 0,
            num_shards: 1,
        }
    );
    assert_eq!(c.heartbeats_active, 1);
    let ev = Event::Dispatch(
        DispatchEvent::Ready(Ready { session_id: "abc123".to_string() }),
        Some(1),
    );
    c.handle_event(ev);
    assert_eq!(c.session.id, "abc123");
    // The heartbeat task beats every 41250 time units.
    assert_eq!(nth_beat_deadline(0, 41250, 1), Some(41250));
    assert_eq!(nth_beat_deadline(0, 41250, 2), Some(82500));
    assert_eq!(nth_beat_deadline(0, 41250, 3), Some(123750));
}

#[test]
fn close_after_clean_session_resumes_with_last_sequence() {
    let mut c = connected("t", 100);
    c.handle_event(Event::Dispatch(
        DispatchEvent::Ready(Ready { session_id: "abc123".to_string() }),
        Some(1),
    ));
    c.handle_event(dispatch(57));
    assert_eq!(c.session.last_sequence, Some(57));
    let out = c.handle_event(Event::Close(PandaError::TransportError));
    assert_eq!(out, Outcome::Reconnect);
    let cmd = c.reconnect(4500);
    assert_eq!(
        cmd,
        Command::Resume {
            token: "Bot t".to_string(),
            session_id: "abc123".to_string(),
            last_sequence: Some(57),
        }
    );
    assert_eq!(c.heartbeat_interval, 4500);
    assert_eq!(c.heartbeats_active, 1);
}

#[test]
fn invalid_session_forces_identify_on_reconnect() {
    let mut c = connected("t", 100);
    c.handle_event(Event::Dispatch(
        DispatchEvent::Ready(Ready { session_id: "abc123".to_string() }),
        Some(1),
    ));
    c.handle_event(Event::InvalidSession(false));
    let out = c.handle_event(Event::Close(PandaError::TransportError));
    assert_eq!(out, Outcome::Reconnect);
    let cmd = c.reconnect(100);
    assert!(matches!(cmd, Command::Identify { .. }));
    // The client may optimistically resume the next time.
    assert!(c.session.resumable);
}

#[test]
fn repeated_reconnects_keep_one_heartbeat_task() {
    let mut c = connected("t", 100);
    for _ in 0..5 {
        c.handle_event(Event::Close(PandaError::TransportError));
        c.reconnect(100);
        assert_eq!(c.heartbeats_active, 1);
    }
}

#[test]
fn heartbeat_ack_is_recorded_and_continues() {
    let mut c = connected("t", 100);
    assert_eq!(c.heartbeat_acks, 0);
    let out = c.handle_event(Event::HeartbeatACK);
    assert_eq!(out, Outcome::Continue);
    assert_eq!(c.heartbeat_acks, 1);
}

#[test]
fn reconnect_request_and_unknown_events_keep_reading() {
    let mut c = connected("t", 100);
    assert_eq!(c.handle_event(Event::Reconnect), Outcome::Continue);
    assert_eq!(c.handle_event(Event::Hello(999)), Outcome::Continue);
    assert_eq!(c.handle_event(Event::Unhandled), Outcome::Continue);
    assert_eq!(c.session.last_sequence, None);
}

#[test]
fn authentication_failure_is_fatal_and_stops_the_run() {
    let mut c = connected("t", 100);
    let events = vec![
        dispatch(3),
        Event::Close(PandaError::AuthenticationFailed),
        // Nothing after the fatal close may be processed.
        dispatch(99),
    ];
    let out = c.run_inbound(events, 100);
    assert_eq!(out.fatal, Some(PandaError::AuthenticationFailed));
    assert!(out.sent.is_empty());
    assert_eq!(c.session.last_sequence, Some(3));
}

#[test]
fn run_inbound_reconnects_on_non_fatal_close() {
    let mut c = connected("t", 100);
    let events = vec![
        Event::Dispatch(
            DispatchEvent::Ready(Ready { session_id: "abc123".to_string() }),
            Some(1),
        ),
        dispatch(57),
        Event::Close(PandaError::TransportError),
        dispatch(58),
    ];
    let out = c.run_inbound(events, 200);
    assert_eq!(out.fatal, None);
    assert_eq!(out.sent.len(), 1);
    assert_eq!(
        out.sent[0],
        Command::Resume {
            token: "Bot t".to_string(),
            session_id: "abc123".to_string(),
            last_sequence: Some(57),
        }
    );
    assert_eq!(out.forwarded.len(), 3);
    assert_eq!(c.session.last_sequence, Some(58));
}

#[test]
fn guild_role_update_is_forwarded_unchanged() {
    let mut c = connected("t", 100);
    let update = GuildRoleUpdate {
        guild_id: "g1".to_string(),
        role: Role {
            id: "r1".to_string(),
            name: "mods".to_string(),
            color: 0xff0000,
            hoist: true,
            position: 3,
            permissions: 8,
            managed: false,
            mentionable: true,
        },
    };
    let out = c.handle_event(Event::Dispatch(
        DispatchEvent::GuildRoleUpdate(update.clone()),
        Some(2),
    ));
    match out {
        Outcome::Forward(DispatchEvent::GuildRoleUpdate(got)) => assert_eq!(got, update),
        other => panic!("expected a forwarded role update, got {:?}", other),
    }
}

#[test]
fn heartbeat_commands_carry_the_sequence() {
    assert_eq!(heartbeat_command(None), Command::Heartbeat { last_sequence: None });
    assert_eq!(
        heartbeat_command(Some(57)),
        Command::Heartbeat { last_sequence: Some(57) }
    );
    assert_eq!(next_beat_deadline(1000, 41250), Some(42250));
    assert_eq!(next_beat_deadline(u64::MAX, 1), None);
    assert_eq!(nth_beat_deadline(10, u64::MAX, 2), None);
}

#[test]
fn command_json_envelopes() {
    assert_eq!(
        Command::Heartbeat { last_sequence: None }.to_json(),
        "{\"op\":1,\"d\":null}"
    );
    assert_eq!(
        Command::Heartbeat { last_sequence: Some(57) }.to_json(),
        "{\"op\":1,\"d\":57}"
    );
    assert_eq!(
        Command::Resume {
            token: "Bot t".to_string(),
            session_id: "abc123".to_string(),
            last_sequence: Some(57),
        }
        .to_json(),
        "{\"op\":6,\"d\":{\"token\":\"Bot t\",\"session_id\":\"abc123\",\"seq\":57}}"
    );
    assert_eq!(
        Command::Identify {
            token: "Bot t".to_string(),
            large_threshold: 250,
            guild_subscriptions: true,
            shard_id: 0,
            num_shards: 1,
        }
        .to_json(),
        "{\"op\":2,\"d\":{\"token\":\"Bot t\",\"properties\":{\"$os\":\"linux\",\
         \"$browser\":\"panda\",\"$device\":\"panda\"},\"large_threshold\":250,\
         \"guild_subscriptions\":true,\"shard\":[0,1]}}"
    );
}

#[test]
fn opcodes_classify_to_frame_kinds() {
    assert_eq!(opcode_kind(0), FrameKind::Dispatch);
    assert_eq!(opcode_kind(7), FrameKind::Reconnect);
    assert_eq!(opcode_kind(9), FrameKind::InvalidSession);
    assert_eq!(opcode_kind(10), FrameKind::Hello);
    assert_eq!(opcode_kind(11), FrameKind::HeartbeatACK);
    assert_eq!(opcode_kind(2), FrameKind::Unknown);
    assert_eq!(opcode_kind(12345), FrameKind::Unknown);
}

#[test]
fn close_codes_classify_to_errors() {
    assert_eq!(classify_close_code(4004), PandaError::AuthenticationFailed);
    assert!(classify_close_code(4004).is_fatal());
    assert_eq!(classify_close_code(1000), PandaError::TransportError);
    assert!(!classify_close_code(1000).is_fatal());
}

#[test]
fn error_messages_describe_each_variant() {
    assert_eq!(PandaError::ConnectFailed.message(), "could not connect to the gateway");
    assert_eq!(PandaError::AuthenticationFailed.message(), "authentication failed");
    assert_eq!(PandaError::TransportError.message(), "connection error");
    assert_eq!(PandaError::RateLimited.message(), "rate limited");
    assert_eq!(PandaError::DecodeError.message(), "received a corrupted frame");
}
