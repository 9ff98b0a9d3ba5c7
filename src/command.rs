//! The decisions around a request and its replies: which message a request
//! becomes, and what each received message means for a command. Sending and
//! receiving are left to the caller.
use crate::ctrl::ControllerAttribute;
use crate::ctrl::CTRL_CMD_GETFAMILY;
use crate::genl::GenericNetlinkHeader;
use crate::genl::GenericNetlinkRequest;
use crate::message::NetlinkErrorMessagePayload;
use crate::message::NetlinkMessageHeader;
use crate::message::NetlinkMessageRequest;
use crate::message::NetlinkMessageType;
use crate::message::NLM_F_ACK;
use crate::message::NLM_F_DUMP;
use crate::message::NLM_F_REQUEST;
use vstd::prelude::*;

verus! {

/// The sequence number of every request.
pub const REQUEST_SEQ: u32 = 1;

/// Flags of a request for one family: a request that asks for an
/// acknowledgement.
pub const GET_FAMILY_FLAGS: u16 = NLM_F_REQUEST | NLM_F_ACK;

/// Flags of a request for all families: a dump request.
pub const LIST_FLAGS: u16 = NLM_F_REQUEST | NLM_F_DUMP;

/// The message that carries `payload` to family `family_id`: sequence 1,
/// port 0 (the kernel assigns ports).
pub fn request_message<T>(family_id: u16, payload: T, flags: u16) -> (r: NetlinkMessageRequest<T>)
    ensures
        r.header == (NetlinkMessageHeader { ty: family_id, flags, seq: REQUEST_SEQ, pid: 0 }),
        r.payload == NetlinkMessageType::ProtocolMessage(payload),
{
    NetlinkMessageRequest {
        header: NetlinkMessageHeader { ty: family_id, flags, seq: REQUEST_SEQ, pid: 0 },
        payload: NetlinkMessageType::ProtocolMessage(payload),
    }
}

/// The controller request for the family called `family_name`.
pub fn get_family_request(family_name: String) -> (r: GenericNetlinkRequest<ControllerAttribute>)
    ensures
        r.header == (GenericNetlinkHeader { cmd: CTRL_CMD_GETFAMILY, version: 0 }),
        r.payload == ControllerAttribute::FamilyName(family_name),
{
    GenericNetlinkRequest {
        header: GenericNetlinkHeader { cmd: CTRL_CMD_GETFAMILY, version: 0 },
        payload: ControllerAttribute::FamilyName(family_name),
    }
}

/// The controller request for every family: no attributes.
pub fn list_request() -> (r: GenericNetlinkRequest<Option<ControllerAttribute>>)
    ensures
        r.header == (GenericNetlinkHeader { cmd: CTRL_CMD_GETFAMILY, version: 0 }),
        r.payload is None,
{
    GenericNetlinkRequest {
        header: GenericNetlinkHeader { cmd: CTRL_CMD_GETFAMILY, version: 0 },
        payload: None,
    }
}

/// Why a command awaiting one reply did not get the payload it asked for.
#[derive(Debug, PartialEq, Eq)]
pub enum ReplyFailure {
    /// The kernel answered with an error: its code and the echoed header.
    NetlinkError(NetlinkErrorMessagePayload),
    /// A control message came instead, an acknowledgement among them.
    UnexpectedMessageType,
}

/// What the reply to a command means: the payload of a protocol message, the
/// kernel's error for an error message with a non-zero code, and for an
/// acknowledgement (code zero) or any other control message a message of
/// the wrong type.
pub fn protocol_reply<T>(message: NetlinkMessageType<T>) -> (r: Result<T, ReplyFailure>)
    ensures
        match message {
            NetlinkMessageType::ProtocolMessage(p) => r == Ok::<T, ReplyFailure>(p),
            NetlinkMessageType::Error(e) => if e.error_code != 0 {
                r == Err::<T, ReplyFailure>(ReplyFailure::NetlinkError(e))
            } else {
                r == Err::<T, ReplyFailure>(ReplyFailure::UnexpectedMessageType)
            },
            _ => r == Err::<T, ReplyFailure>(ReplyFailure::UnexpectedMessageType),
        },
{
    match message {
        NetlinkMessageType::ProtocolMessage(p) => Ok(p),
        NetlinkMessageType::Error(e) => {
            if e.error_code != 0 {
                Err(ReplyFailure::NetlinkError(e))
            } else {
                Err(ReplyFailure::UnexpectedMessageType)
            }
        },
        _ => Err(ReplyFailure::UnexpectedMessageType),
    }
}

/// How a multipart exchange fails.
#[derive(Debug, PartialEq, Eq)]
pub enum RecvUntilDoneFailure {
    /// The kernel answered with an error message.
    NetlinkError(NetlinkErrorMessagePayload),
    /// The kernel reported lost messages.
    UnexpectedOverrun,
}

/// What to do after one message of a multipart reply.
#[derive(Debug, PartialEq, Eq)]
pub enum RecvUntilDoneStep {
    /// Read on.
    Continue,
    /// The reply is complete.
    Done,
    /// Stop with this failure.
    Failed(RecvUntilDoneFailure),
}

/// Takes one message of a multipart reply: protocol messages are collected
/// in order, `Noop` is skipped, `Done` ends the reply, `Error` and `Overrun`
/// end it with a failure.
pub fn recv_until_done_step<T>(messages: &mut Vec<T>, message: NetlinkMessageType<T>) -> (r:
    RecvUntilDoneStep)
    ensures
        match message {
            NetlinkMessageType::ProtocolMessage(p) => r == RecvUntilDoneStep::Continue
                && final(messages)@ == old(messages)@.push(p),
            NetlinkMessageType::Noop => r == RecvUntilDoneStep::Continue && final(messages)@ == old(
                messages,
            )@,
            NetlinkMessageType::Done => r == RecvUntilDoneStep::Done && final(messages)@ == old(
                messages,
            )@,
            NetlinkMessageType::Error(e) => r == RecvUntilDoneStep::Failed(
                RecvUntilDoneFailure::NetlinkError(e),
            ) && final(messages)@ == old(messages)@,
            NetlinkMessageType::Overrun => r == RecvUntilDoneStep::Failed(
                RecvUntilDoneFailure::UnexpectedOverrun,
            ) && final(messages)@ == old(messages)@,
        },
{
    match message {
        NetlinkMessageType::Noop => RecvUntilDoneStep::Continue,
        NetlinkMessageType::Error(e) => RecvUntilDoneStep::Failed(
            RecvUntilDoneFailure::NetlinkError(e),
        ),
        NetlinkMessageType::Done => RecvUntilDoneStep::Done,
        NetlinkMessageType::Overrun => RecvUntilDoneStep::Failed(
            RecvUntilDoneFailure::UnexpectedOverrun,
        ),
        NetlinkMessageType::ProtocolMessage(p) => {
            messages.push(p);
            RecvUntilDoneStep::Continue
        },
    }
}

} // verus!
