//! The message envelope's variants and the rules on which of them may answer
//! which request.

use vstd::prelude::*;
use vstd::string::*;

use crate::console::{signed_decimal, signed_decimal_spec};
use crate::demux::MessageKind;
use crate::error::GameRLError;

verus! {

/// The discriminant of a message envelope.
#[derive(Debug, Clone, Copy, PartialEq, Eq, Structural)]
pub enum MessageTag {
    // sent by the peer
    Ready,
    StateUpdate,
    AgentRegistered,
    StepResult,
    BatchStepResult,
    ResetComplete,
    StateHash,
    StreamsConfigured,
    Error,
    // sent by the bridge
    RegisterAgent,
    DeregisterAgent,
    ExecuteAction,
    Reset,
    GetStateHash,
    ConfigureStreams,
    Shutdown,
}

/// Requests that wait for a reply.
#[derive(Debug, Clone, Copy, PartialEq, Eq, Structural)]
pub enum Operation {
    RegisterAgent,
    Step,
    Reset,
    StateHash,
    ConfigureStreams,
}

/// How a reply stands to the request it answers.
#[derive(Debug, Clone, Copy, PartialEq, Eq, Structural)]
pub enum ReplyCheck {
    /// The variant this request expects.
    Accepted,
    /// The peer's own error, to be passed through with its code and message.
    Domain,
    /// Any other variant: a protocol error.
    Unexpected,
}

/// Whether a variant answers the operation.
pub open spec fn answers(op: Operation, tag: MessageTag) -> bool {
    match op {
        Operation::RegisterAgent => tag == MessageTag::AgentRegistered,
        Operation::Step => tag == MessageTag::StepResult || tag == MessageTag::BatchStepResult,
        Operation::Reset => tag == MessageTag::ResetComplete,
        Operation::StateHash => tag == MessageTag::StateHash,
        Operation::ConfigureStreams => tag == MessageTag::StreamsConfigured,
    }
}

/// How a reply of the given variant stands to the operation.
pub open spec fn reply_check_spec(op: Operation, tag: MessageTag) -> ReplyCheck {
    if answers(op, tag) {
        ReplyCheck::Accepted
    } else if tag == MessageTag::Error {
        ReplyCheck::Domain
    } else {
        ReplyCheck::Unexpected
    }
}

/// Checks the variant of a reply against the operation that asked for it.
pub fn check_reply(op: Operation, tag: MessageTag) -> (r: ReplyCheck)
    ensures
        r == reply_check_spec(op, tag),
{
    let ok = match op {
        Operation::RegisterAgent => tag == MessageTag::AgentRegistered,
        Operation::Step => tag == MessageTag::StepResult || tag == MessageTag::BatchStepResult,
        Operation::Reset => tag == MessageTag::ResetComplete,
        Operation::StateHash => tag == MessageTag::StateHash,
        Operation::ConfigureStreams => tag == MessageTag::StreamsConfigured,
    };
    if ok {
        ReplyCheck::Accepted
    } else if tag == MessageTag::Error {
        ReplyCheck::Domain
    } else {
        ReplyCheck::Unexpected
    }
}

/// The error for a reply of the wrong variant.
pub fn unexpected_reply() -> (r: GameRLError)
    ensures
        r matches GameRLError::ProtocolError(s) && s@ == "Unexpected response"@,
{
    GameRLError::ProtocolError(String::from_str("Unexpected response"))
}

/// Checks the first message of a connection, which must be `Ready`.
pub fn check_handshake(tag: MessageTag) -> (r: Result<(), GameRLError>)
    ensures
        r is Ok <==> tag == MessageTag::Ready,
        r matches Err(e) ==> (e matches GameRLError::ProtocolError(s) && s@
            == "Expected Ready message"@),
{
    if tag == MessageTag::Ready {
        Ok(())
    } else {
        Err(GameRLError::ProtocolError(String::from_str("Expected Ready message")))
    }
}

/// How the reader routes a decoded message: the state update is the one push
/// variant, every other variant is a reply.
pub open spec fn kind_of_spec(tag: MessageTag) -> MessageKind {
    if tag == MessageTag::StateUpdate {
        MessageKind::Push
    } else {
        MessageKind::Reply
    }
}

/// How the reader routes a decoded message.
pub fn kind_of(tag: MessageTag) -> (r: MessageKind)
    ensures
        r == kind_of_spec(tag),
{
    if tag == MessageTag::StateUpdate {
        MessageKind::Push
    } else {
        MessageKind::Reply
    }
}

/// Index of the first result of a batch that belongs to the agent.
pub fn find_agent_result(agent_ids: &Vec<String>, agent_id: &String) -> (r: Option<usize>)
    ensures
        r is None <==> forall|i: int| 0 <= i < agent_ids@.len() ==> agent_ids@[i]@ != agent_id@,
        r matches Some(i) ==> i < agent_ids@.len() && agent_ids@[i as int]@ == agent_id@ && forall|
            j: int,
        |
            0 <= j < i ==> agent_ids@[j]@ != agent_id@,
{
    let mut i: usize = 0;
    while i < agent_ids.len()
        invariant
            0 <= i <= agent_ids@.len(),
            forall|j: int| 0 <= j < i ==> agent_ids@[j]@ != agent_id@,
        decreases agent_ids@.len() - i,
    {
        if agent_ids[i] == *agent_id {
            return Some(i);
        }
        i = i + 1;
    }
    None
}

/// The text of the peer's own error: `Error <code>: <message>`.
pub open spec fn domain_text(code: int, message: Seq<char>) -> Seq<char> {
    "Error "@ + signed_decimal_spec(code) + ": "@ + message
}

/// The error that passes the peer's own error on, code and message.
pub fn domain_error(code: i32, message: &str) -> (r: GameRLError)
    ensures
        r matches GameRLError::GameError(s) && s@ == domain_text(code as int, message@),
{
    let text = String::from_str("Error ").concat(signed_decimal(code).as_str()).concat(": ").concat(
        message,
    );
    GameRLError::GameError(text)
}

/// The error when a batch holds no result for the agent that stepped.
pub fn batch_missing_agent() -> (r: GameRLError)
    ensures
        r matches GameRLError::ProtocolError(s) && s@ == "BatchStepResult missing requested agent"@,
{
    GameRLError::ProtocolError(String::from_str("BatchStepResult missing requested agent"))
}

} // verus!
