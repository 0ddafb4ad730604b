//! Protocol data: inbound events, outbound commands, and the envelope
//! classification that maps raw frames onto them.

use vstd::prelude::*;
use vstd::string::*;

use crate::error::PandaError;
use crate::text::{dec_str, json_quote, json_quoted, u64_to_string};

verus! {

/// A guild role, as the dispatch payloads carry it.
#[derive(Debug, Clone, PartialEq)]
pub struct Role {
    pub id: String,
    pub name: String,
    pub color: u64,
    pub hoist: bool,
    pub position: u64,
    pub permissions: u64,
    pub managed: bool,
    pub mentionable: bool,
}

/// Payload of a role update inside a guild.
#[derive(Debug, Clone, PartialEq)]
pub struct GuildRoleUpdate {
    pub guild_id: String,
    pub role: Role,
}

/// Payload of the ready event that completes an identify.
#[derive(Debug, Clone, PartialEq)]
pub struct Ready {
    pub session_id: String,
}

/// A dispatched application event. The closed set of kinds the coordinator
/// interprets is listed; everything else lands in the catch-all variant,
/// which keeps the client forward compatible with protocol additions.
#[derive(Debug, Clone, PartialEq)]
pub enum DispatchEvent {
    Ready(Ready),
    GuildRoleUpdate(GuildRoleUpdate),
    /// Any other event kind, carried by its kind tag.
    Unhandled(String),
}

/// An inbound protocol event, one per decoded frame.
#[derive(Debug, Clone, PartialEq)]
pub enum Event {
    /// An application event plus the sequence number of its envelope.
    Dispatch(DispatchEvent, Option<u64>),
    /// The server asks the client to reconnect.
    Reconnect,
    /// The server declares the session invalid; the flag says whether it may
    /// still be resumed.
    InvalidSession(bool),
    /// Acknowledgement of a heartbeat.
    HeartbeatACK,
    /// First frame of a connection, carrying the heartbeat interval.
    Hello(u64),
    /// The connection closed for the given reason.
    Close(PandaError),
    /// A recognizable envelope whose opcode the client does not interpret.
    Unhandled,
}

/// An outbound command.
#[derive(Debug, Clone, PartialEq)]
pub enum Command {
    /// Authenticate a brand-new session.
    Identify {
        token: String,
        large_threshold: u64,
        guild_subscriptions: bool,
        shard_id: u64,
        num_shards: u64,
    },
    /// Reattach to an established session after the given sequence number.
    Resume { token: String, session_id: String, last_sequence: Option<u64> },
    /// Periodic liveness frame.
    Heartbeat { last_sequence: Option<u64> },
}

impl Command {
    /// Build an identify command.
    pub fn new_identify(
        token: &String,
        large_threshold: u64,
        guild_subscriptions: bool,
        shard_id: u64,
        num_shards: u64,
    ) -> (c: Command)
        ensures
            c == (Command::Identify {
                token: *token,
                large_threshold,
                guild_subscriptions,
                shard_id,
                num_shards,
            }),
    {
        Command::Identify {
            token: token.clone(),
            large_threshold,
            guild_subscriptions,
            shard_id,
            num_shards,
        }
    }

    /// Build a resume command.
    pub fn new_resume(token: String, session_id: String, last_sequence: Option<u64>) -> (c:
        Command)
        ensures
            c == (Command::Resume { token, session_id, last_sequence }),
    {
        Command::Resume { token, session_id, last_sequence }
    }

    /// Build a heartbeat command.
    pub fn new_heartbeat(last_sequence: Option<u64>) -> (c: Command)
        ensures
            c == (Command::Heartbeat { last_sequence }),
    {
        Command::Heartbeat { last_sequence }
    }
}

/// A possibly absent sequence number in JSON: the number, or `null`.
pub open spec fn spec_opt_u64_json(n: Option<u64>) -> Seq<char> {
    match n {
        Option::None => "null"@,
        Option::Some(v) => dec_str(v as nat),
    }
}

/// `true` or `false` in JSON.
pub open spec fn spec_bool_json(b: bool) -> Seq<char> {
    if b {
        "true"@
    } else {
        "false"@
    }
}

/// JSON envelope of a heartbeat command.
pub open spec fn spec_heartbeat_json(last_sequence: Option<u64>) -> Seq<char> {
    "{\"op\":1,\"d\":"@ + spec_opt_u64_json(last_sequence) + "}"@
}

/// JSON envelope of a resume command.
pub open spec fn spec_resume_json(
    token: Seq<char>,
    session_id: Seq<char>,
    last_sequence: Option<u64>,
) -> Seq<char> {
    "{\"op\":6,\"d\":{\"token\":"@ + json_quoted(token) + ",\"session_id\":"@ + json_quoted(
        session_id,
    ) + ",\"seq\":"@ + spec_opt_u64_json(last_sequence) + "}}"@
}

/// JSON envelope of an identify command.
pub open spec fn spec_identify_json(
    token: Seq<char>,
    large_threshold: u64,
    guild_subscriptions: bool,
    shard_id: u64,
    num_shards: u64,
) -> Seq<char> {
    "{\"op\":2,\"d\":{\"token\":"@ + json_quoted(token)
        + ",\"properties\":{\"$os\":\"linux\",\"$browser\":\"panda\",\"$device\":\"panda\"},\"large_threshold\":"@
        + dec_str(large_threshold as nat) + ",\"guild_subscriptions\":"@ + spec_bool_json(
        guild_subscriptions,
    ) + ",\"shard\":["@ + dec_str(shard_id as nat) + ","@ + dec_str(num_shards as nat) + "]}}"@
}

/// JSON envelope of any command.
pub open spec fn spec_command_json(c: Command) -> Seq<char> {
    match c {
        Command::Identify {
            token,
            large_threshold,
            guild_subscriptions,
            shard_id,
            num_shards,
        } => spec_identify_json(
            token@,
            large_threshold,
            guild_subscriptions,
            shard_id,
            num_shards,
        ),
        Command::Resume { token, session_id, last_sequence } => spec_resume_json(
            token@,
            session_id@,
            last_sequence,
        ),
        Command::Heartbeat { last_sequence } => spec_heartbeat_json(last_sequence),
    }
}

fn append_opt_u64(out: &mut String, n: Option<u64>)
    ensures
        final(out)@ == old(out)@ + spec_opt_u64_json(n),
{
    match n {
        None => {
            out.append("null");
        }
        Some(v) => {
            let s = u64_to_string(v);
            out.append(s.as_str());
        }
    }
}

impl Command {
    /// Serialize this command to its JSON envelope: an opcode and a payload
    /// object, as the gateway expects them on the wire.
    pub fn to_json(&self) -> (r: String)
        ensures
            r@ == spec_command_json(*self),
    {
        match self {
            Command::Heartbeat { last_sequence } => {
                let mut r = String::from_str("{\"op\":1,\"d\":");
                append_opt_u64(&mut r, *last_sequence);
                r.append("}");
                proof {
                    assert(r@ =~= spec_command_json(*self));
                }
                r
            }
            Command::Resume { token, session_id, last_sequence } => {
                let mut r = String::from_str("{\"op\":6,\"d\":{\"token\":");
                let qt = json_quote(token.as_str());
                r.append(qt.as_str());
                r.append(",\"session_id\":");
                let qs = json_quote(session_id.as_str());
                r.append(qs.as_str());
                r.append(",\"seq\":");
                append_opt_u64(&mut r, *last_sequence);
                r.append("}}");
                proof {
                    assert(r@ =~= spec_command_json(*self));
                }
                r
            }
            Command::Identify {
                token,
                large_threshold,
                guild_subscriptions,
                shard_id,
                num_shards,
            } => {
                let mut r = String::from_str("{\"op\":2,\"d\":{\"token\":");
                let qt = json_quote(token.as_str());
                r.append(qt.as_str());
                r.append(
                    ",\"properties\":{\"$os\":\"linux\",\"$browser\":\"panda\",\"$device\":\"panda\"},\"large_threshold\":",
                );
                let lt = u64_to_string(*large_threshold);
                r.append(lt.as_str());
                r.append(",\"guild_subscriptions\":");
                if *guild_subscriptions {
                    r.append("true");
                } else {
                    r.append("false");
                }
                r.append(",\"shard\":[");
                let si = u64_to_string(*shard_id);
                r.append(si.as_str());
                r.append(",");
                let ns = u64_to_string(*num_shards);
                r.append(ns.as_str());
                r.append("]}}");
                proof {
                    assert(r@ =~= spec_command_json(*self));
                }
                r
            }
        }
    }
}

/// The frame families an envelope opcode can select.
#[derive(Clone, Copy, Debug, PartialEq, Eq, Structural)]
pub enum FrameKind {
    Dispatch,
    Reconnect,
    InvalidSession,
    Hello,
    HeartbeatACK,
    Unknown,
}

/// The frame family of each envelope opcode.
pub open spec fn spec_opcode_kind(op: u64) -> FrameKind {
    if op == 0 {
        FrameKind::Dispatch
    } else if op == 7 {
        FrameKind::Reconnect
    } else if op == 9 {
        FrameKind::InvalidSession
    } else if op == 10 {
        FrameKind::Hello
    } else if op == 11 {
        FrameKind::HeartbeatACK
    } else {
        FrameKind::Unknown
    }
}

/// Classify an envelope opcode. Every unrecognized opcode maps to the
/// catch-all kind rather than failing.
pub fn opcode_kind(op: u64) -> (k: FrameKind)
    ensures
        k == spec_opcode_kind(op),
{
    if op == 0 {
        FrameKind::Dispatch
    } else if op == 7 {
        FrameKind::Reconnect
    } else if op == 9 {
        FrameKind::InvalidSession
    } else if op == 10 {
        FrameKind::Hello
    } else if op == 11 {
        FrameKind::HeartbeatACK
    } else {
        FrameKind::Unknown
    }
}

/// How a transport close code is classified: only a credential rejection is
/// unrecoverable; every other closure is treated as a transport failure and
/// absorbed by the reconnect protocol.
pub open spec fn spec_close_reason(code: u16) -> PandaError {
    if code == 4004 {
        PandaError::AuthenticationFailed
    } else {
        PandaError::TransportError
    }
}

/// Classify a transport close code.
pub fn classify_close_code(code: u16) -> (e: PandaError)
    ensures
        e == spec_close_reason(code),
{
    if code == 4004 {
        PandaError::AuthenticationFailed
    } else {
        PandaError::TransportError
    }
}

} // verus!
