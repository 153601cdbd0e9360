//! Error kinds shared by every part of the bridge, and the numeric codes that
//! the tool dispatcher reports for them.

use vstd::prelude::*;
use vstd::string::*;

verus! {

/// Errors raised by the bridge and its transports.
#[derive(Debug, Clone)]
pub enum GameRLError {
    /// Agent not registered.
    AgentNotRegistered(String),
    /// Invalid action for the current state.
    InvalidAction(String),
    /// Action not in the action space.
    ActionSpaceViolation(String),
    /// Episode already terminated.
    EpisodeTerminated,
    /// Agent missed the step deadline.
    SyncTimeout,
    /// Too many agents or streams.
    ResourceExhausted(String),
    /// Vision stream error.
    StreamError(String),
    /// Communication with the peer failed: the connection is lost.
    IpcError(String),
    /// The remote console refused the shared secret.
    AuthenticationFailed(String),
    /// A payload could not be encoded or decoded.
    SerializationError(String),
    /// The peer reported an error of its own.
    GameError(String),
    /// The peer answered with something the protocol does not allow here.
    ProtocolError(String),
}

/// The kinds of failure that decide how an error is handled.
#[derive(Debug, Clone, Copy, PartialEq, Eq, Structural)]
pub enum ErrorKind {
    /// The transport failed; reconnecting may help.
    ConnectionLost,
    /// The remote console refused the secret; never retried by itself.
    AuthenticationFailed,
    /// The peer broke the protocol; never retried.
    ProtocolError,
    /// A payload was malformed.
    SerializationError,
    /// No room is left for another agent or stream.
    CapacityExceeded,
    /// The agent is not known.
    AgentNotFound,
    /// The peer's own error, passed through.
    DomainError,
    /// Anything else.
    Other,
}

/// The kind of an error.
pub open spec fn error_kind(e: GameRLError) -> ErrorKind {
    match e {
        GameRLError::IpcError(_) => ErrorKind::ConnectionLost,
        GameRLError::AuthenticationFailed(_) => ErrorKind::AuthenticationFailed,
        GameRLError::ProtocolError(_) => ErrorKind::ProtocolError,
        GameRLError::SerializationError(_) => ErrorKind::SerializationError,
        GameRLError::ResourceExhausted(_) => ErrorKind::CapacityExceeded,
        GameRLError::AgentNotRegistered(_) => ErrorKind::AgentNotFound,
        GameRLError::GameError(_) => ErrorKind::DomainError,
        _ => ErrorKind::Other,
    }
}

/// Code reported for an agent that is not registered.
pub const AGENT_NOT_REGISTERED: i32 = -32000;

/// Code reported for an invalid action.
pub const INVALID_ACTION: i32 = -32001;

/// Code reported for a terminated episode.
pub const EPISODE_TERMINATED: i32 = -32002;

/// Code reported for a missed step deadline.
pub const SYNC_TIMEOUT: i32 = -32003;

/// Code reported when agents or streams are exhausted.
pub const RESOURCE_EXHAUSTED: i32 = -32004;

/// Code reported for every other failure.
pub const INTERNAL_ERROR: i32 = -32603;

/// The code the tool dispatcher reports for an error.
pub open spec fn rpc_code_spec(e: GameRLError) -> i32 {
    match e {
        GameRLError::AgentNotRegistered(_) => AGENT_NOT_REGISTERED,
        GameRLError::InvalidAction(_) => INVALID_ACTION,
        GameRLError::EpisodeTerminated => EPISODE_TERMINATED,
        GameRLError::SyncTimeout => SYNC_TIMEOUT,
        GameRLError::ResourceExhausted(_) => RESOURCE_EXHAUSTED,
        _ => INTERNAL_ERROR,
    }
}

/// The text of an error, its kind's label then its detail.
pub open spec fn message_spec(e: GameRLError) -> Seq<char> {
    match e {
        GameRLError::AgentNotRegistered(s) => "Agent not registered: "@ + s@,
        GameRLError::InvalidAction(s) => "Invalid action: "@ + s@,
        GameRLError::ActionSpaceViolation(s) => "Action not in action space: "@ + s@,
        GameRLError::EpisodeTerminated => "Episode terminated, call reset"@,
        GameRLError::SyncTimeout => "Sync timeout: agent missed step deadline"@,
        GameRLError::ResourceExhausted(s) => "Resource exhausted: "@ + s@,
        GameRLError::StreamError(s) => "Stream error: "@ + s@,
        GameRLError::IpcError(s) => "IPC error: "@ + s@,
        GameRLError::AuthenticationFailed(s) => "Authentication failed: "@ + s@,
        GameRLError::SerializationError(s) => "Serialization error: "@ + s@,
        GameRLError::GameError(s) => "Game error: "@ + s@,
        GameRLError::ProtocolError(s) => "Protocol error: "@ + s@,
    }
}

fn labelled(label: &str, detail: &String) -> (r: String)
    ensures
        r@ == label@ + detail@,
{
    String::from_str(label).concat(detail.as_str())
}

impl GameRLError {
    /// The kind of this error.
    pub fn kind(&self) -> (r: ErrorKind)
        ensures
            r == error_kind(*self),
    {
        match self {
            GameRLError::IpcError(_) => ErrorKind::ConnectionLost,
            GameRLError::AuthenticationFailed(_) => ErrorKind::AuthenticationFailed,
            GameRLError::ProtocolError(_) => ErrorKind::ProtocolError,
            GameRLError::SerializationError(_) => ErrorKind::SerializationError,
            GameRLError::ResourceExhausted(_) => ErrorKind::CapacityExceeded,
            GameRLError::AgentNotRegistered(_) => ErrorKind::AgentNotFound,
            GameRLError::GameError(_) => ErrorKind::DomainError,
            _ => ErrorKind::Other,
        }
    }

    /// The code the tool dispatcher reports for this error.
    pub fn rpc_code(&self) -> (r: i32)
        ensures
            r == rpc_code_spec(*self),
    {
        match self {
            GameRLError::AgentNotRegistered(_) => AGENT_NOT_REGISTERED,
            GameRLError::InvalidAction(_) => INVALID_ACTION,
            GameRLError::EpisodeTerminated => EPISODE_TERMINATED,
            GameRLError::SyncTimeout => SYNC_TIMEOUT,
            GameRLError::ResourceExhausted(_) => RESOURCE_EXHAUSTED,
            _ => INTERNAL_ERROR,
        }
    }

    /// The text of this error.
    pub fn to_string(&self) -> (r: String)
        ensures
            r@ == message_spec(*self),
    {
        match self {
            GameRLError::AgentNotRegistered(s) => labelled("Agent not registered: ", s),
            GameRLError::InvalidAction(s) => labelled("Invalid action: ", s),
            GameRLError::ActionSpaceViolation(s) => labelled("Action not in action space: ", s),
            GameRLError::EpisodeTerminated => String::from_str("Episode terminated, call reset"),
            GameRLError::SyncTimeout => String::from_str(
                "Sync timeout: agent missed step deadline",
            ),
            GameRLError::ResourceExhausted(s) => labelled("Resource exhausted: ", s),
            GameRLError::StreamError(s) => labelled("Stream error: ", s),
            GameRLError::IpcError(s) => labelled("IPC error: ", s),
            GameRLError::AuthenticationFailed(s) => labelled("Authentication failed: ", s),
            GameRLError::SerializationError(s) => labelled("Serialization error: ", s),
            GameRLError::GameError(s) => labelled("Game error: ", s),
            GameRLError::ProtocolError(s) => labelled("Protocol error: ", s),
        }
    }
}

} // verus!
