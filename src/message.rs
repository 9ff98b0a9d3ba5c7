//! Netlink message framing: the 16-byte header, the control message types
//! and the error payload.
use crate::payload::appended;
use crate::payload::decoded_as;
use crate::payload::Modeled;
pub use crate::payload::NetlinkPayloadRequest;
pub use crate::payload::NetlinkPayloadResponse;
use crate::payload::PayloadCodec;
use crate::utils::lemma_ne_u16_round_trip;
use crate::utils::lemma_ne_u32_round_trip;
use crate::utils::ne_u16;
use crate::utils::ne_u32;
use crate::utils::get_u16_at;
use crate::utils::get_u32_at;
use crate::utils::nla_put_u16;
use crate::utils::nla_put_u32;
use crate::utils::spec_prefixed_u32;
use crate::utils::u16_of_ne;
use crate::utils::u32_of_ne;
use crate::utils::write_to_buf_with_prefixed_u32_len;
use crate::utils::LengthOverflow;
use vstd::prelude::*;
use vstd::slice::slice_subrange;

verus! {

/// Size of a Netlink message header.
pub const NLMSG_HDRLEN: usize = 16;

/// No operation; the message is discarded.
pub const NLMSG_NOOP: u16 = 1;

/// Error message or acknowledgement.
pub const NLMSG_ERROR: u16 = 2;

/// End of a multipart sequence.
pub const NLMSG_DONE: u16 = 3;

/// Data was lost.
pub const NLMSG_OVERRUN: u16 = 4;

/// The smallest message type a protocol may define.
pub const NLMSG_MIN_TYPE: u16 = 16;

/// The message is a request.
pub const NLM_F_REQUEST: u16 = 1;

/// The message is part of a multipart reply.
pub const NLM_F_MULTI: u16 = 2;

/// Ask for an acknowledgement.
pub const NLM_F_ACK: u16 = 4;

/// Return the whole table.
pub const NLM_F_ROOT: u16 = 256;

/// Return every matching entry.
pub const NLM_F_MATCH: u16 = 512;

/// Dump a table: `NLM_F_ROOT | NLM_F_MATCH`.
pub const NLM_F_DUMP: u16 = 768;

/// A message header without its length field, which framing fills in.
#[derive(Debug, PartialEq, Eq, Clone, Copy)]
pub struct NetlinkMessageHeader {
    pub ty: u16,
    pub flags: u16,
    pub seq: u32,
    pub pid: u32,
}

/// The header fields that follow the length: type, flags, sequence, port.
pub open spec fn spec_header_tail(ty: u16, flags: u16, seq: u32, pid: u32) -> Seq<u8> {
    ne_u16(ty) + ne_u16(flags) + ne_u32(seq) + ne_u32(pid)
}

impl Modeled for NetlinkMessageHeader {
    type Model = NetlinkMessageHeader;

    open spec fn model(&self) -> NetlinkMessageHeader {
        *self
    }
}

impl NetlinkMessageHeader {
    pub open spec fn spec_bytes(&self) -> Seq<u8> {
        spec_header_tail(self.ty, self.flags, self.seq, self.pid)
    }

    fn serialize(&self, buf: &mut Vec<u8>)
        ensures
            final(buf)@ == old(buf)@ + self.spec_bytes(),
    {
        nla_put_u16(buf, self.ty);
        nla_put_u16(buf, self.flags);
        nla_put_u32(buf, self.seq);
        nla_put_u32(buf, self.pid);
        assert(buf@ =~= old(buf)@ + self.spec_bytes());
    }
}

/// A complete message header as it stands on the wire.
#[derive(Debug, PartialEq, Eq, Clone, Copy)]
pub struct RawNetlinkMessageHeader {
    pub len: u32,
    pub ty: u16,
    pub flags: u16,
    pub seq: u32,
    pub pid: u32,
}

impl Modeled for RawNetlinkMessageHeader {
    type Model = RawNetlinkMessageHeader;

    open spec fn model(&self) -> RawNetlinkMessageHeader {
        *self
    }
}

/// The header read from the first 16 bytes of `b`.
pub open spec fn spec_raw_header(b: Seq<u8>) -> RawNetlinkMessageHeader {
    RawNetlinkMessageHeader {
        len: u32_of_ne(b.subrange(0, 4)),
        ty: u16_of_ne(b.subrange(4, 6)),
        flags: u16_of_ne(b.subrange(6, 8)),
        seq: u32_of_ne(b.subrange(8, 12)),
        pid: u32_of_ne(b.subrange(12, 16)),
    }
}

impl RawNetlinkMessageHeader {
    pub open spec fn spec_bytes(&self) -> Seq<u8> {
        ne_u32(self.len) + spec_header_tail(self.ty, self.flags, self.seq, self.pid)
    }

    /// Reads a header from the first 16 bytes of `buf`.
    pub fn deserialize(buf: &[u8]) -> (r: RawNetlinkMessageHeader)
        requires
            buf@.len() >= NLMSG_HDRLEN,
        ensures
            r == spec_raw_header(buf@),
    {
        RawNetlinkMessageHeader {
            len: get_u32_at(buf, 0),
            ty: get_u16_at(buf, 4),
            flags: get_u16_at(buf, 6),
            seq: get_u32_at(buf, 8),
            pid: get_u32_at(buf, 12),
        }
    }

    /// Writes the header's 16 bytes.
    pub fn serialize(&self, buf: &mut Vec<u8>)
        ensures
            final(buf)@ == old(buf)@ + self.spec_bytes(),
    {
        nla_put_u32(buf, self.len);
        nla_put_u16(buf, self.ty);
        nla_put_u16(buf, self.flags);
        nla_put_u32(buf, self.seq);
        nla_put_u32(buf, self.pid);
        assert(buf@ =~= old(buf)@ + self.spec_bytes());
    }
}

/// Reading back the bytes of a header gives the header.
pub proof fn lemma_raw_header_round_trip(h: RawNetlinkMessageHeader, rest: Seq<u8>)
    ensures
        h.spec_bytes().len() == 16,
        spec_raw_header(h.spec_bytes() + rest) == h,
{
    let b = h.spec_bytes() + rest;
    lemma_ne_u32_round_trip(h.len);
    lemma_ne_u16_round_trip(h.ty);
    lemma_ne_u16_round_trip(h.flags);
    lemma_ne_u32_round_trip(h.seq);
    lemma_ne_u32_round_trip(h.pid);
    assert(b.subrange(0, 4) =~= ne_u32(h.len));
    assert(b.subrange(4, 6) =~= ne_u16(h.ty));
    assert(b.subrange(6, 8) =~= ne_u16(h.flags));
    assert(b.subrange(8, 12) =~= ne_u32(h.seq));
    assert(b.subrange(12, 16) =~= ne_u32(h.pid));
}

impl vstd::std_specs::convert::FromSpecImpl<RawNetlinkMessageHeader> for NetlinkMessageHeader {
    open spec fn obeys_from_spec() -> bool {
        true
    }

    open spec fn from_spec(raw: RawNetlinkMessageHeader) -> NetlinkMessageHeader {
        NetlinkMessageHeader { ty: raw.ty, flags: raw.flags, seq: raw.seq, pid: raw.pid }
    }
}

impl From<RawNetlinkMessageHeader> for NetlinkMessageHeader {
    /// Drops the length field.
    fn from(raw: RawNetlinkMessageHeader) -> (r: NetlinkMessageHeader) {
        NetlinkMessageHeader { ty: raw.ty, flags: raw.flags, seq: raw.seq, pid: raw.pid }
    }
}

/// The payload of an `NLMSG_ERROR` message: an error code (zero for an
/// acknowledgement, else a negated errno) and the header of the request.
#[derive(Debug, PartialEq, Eq, Clone, Copy)]
pub struct NetlinkErrorMessagePayload {
    pub error_code: u32,
    pub original_header: RawNetlinkMessageHeader,
}

impl Modeled for NetlinkErrorMessagePayload {
    type Model = NetlinkErrorMessagePayload;

    open spec fn model(&self) -> NetlinkErrorMessagePayload {
        *self
    }
}

/// An `NLMSG_ERROR` payload is too short.
#[derive(Debug, PartialEq, Eq, Clone, Copy)]
pub enum ReadNetlinkErrorMessageError {
    UnexpectedLen { actual: usize, expected: usize },
}

/// Size of an error payload: the code and an echoed header.
pub const NLMSG_ERROR_PAYLOAD_LEN: usize = 20;

/// What reading an error payload from `buf` gives.
pub open spec fn spec_error_payload(buf: Seq<u8>) -> Result<
    NetlinkErrorMessagePayload,
    ReadNetlinkErrorMessageError,
> {
    if buf.len() < 20 {
        Err(
            ReadNetlinkErrorMessageError::UnexpectedLen {
                actual: buf.len() as usize,
                expected: 20,
            },
        )
    } else {
        Ok(
            NetlinkErrorMessagePayload {
                error_code: u32_of_ne(buf.subrange(0, 4)),
                original_header: spec_raw_header(buf.skip(4)),
            },
        )
    }
}

impl NetlinkPayloadRequest for NetlinkErrorMessagePayload {
    open spec fn spec_serialize(&self) -> Option<Seq<u8>> {
        Some(ne_u32(self.error_code) + self.original_header.spec_bytes())
    }

    fn serialize(&self, buf: &mut Vec<u8>) -> (r: Result<(), LengthOverflow>) {
        nla_put_u32(buf, self.error_code);
        self.original_header.serialize(buf);
        assert(buf@ =~= old(buf)@ + (ne_u32(self.error_code) + self.original_header.spec_bytes()));
        Ok(())
    }
}

impl NetlinkErrorMessagePayload {
    /// Reads the error code and the echoed header; bytes after them are
    /// ignored.
    pub fn try_deserialize(buf: &[u8]) -> (r: Result<
        NetlinkErrorMessagePayload,
        ReadNetlinkErrorMessageError,
    >)
        ensures
            r == spec_error_payload(buf@),
    {
        if buf.len() < NLMSG_ERROR_PAYLOAD_LEN {
            return Err(
                ReadNetlinkErrorMessageError::UnexpectedLen {
                    actual: buf.len(),
                    expected: NLMSG_ERROR_PAYLOAD_LEN,
                },
            );
        }
        let error_code = get_u32_at(buf, 0);
        let rest = slice_subrange(buf, 4, buf.len());
        assert(rest@ =~= buf@.skip(4));
        let original_header = RawNetlinkMessageHeader::deserialize(rest);
        Ok(NetlinkErrorMessagePayload { error_code, original_header })
    }
}

impl NetlinkPayloadResponse for NetlinkErrorMessagePayload {
    type Error = ReadNetlinkErrorMessageError;

    open spec fn spec_deserialize(buf: Seq<u8>) -> Option<NetlinkErrorMessagePayload> {
        match spec_error_payload(buf) {
            Ok(e) => Some(e),
            Err(_) => None,
        }
    }

    open spec fn spec_deserialize_error(buf: Seq<u8>, e: ReadNetlinkErrorMessageError) -> bool {
        spec_error_payload(buf) == Err::<NetlinkErrorMessagePayload, ReadNetlinkErrorMessageError>(e)
    }

    fn deserialize(buf: &[u8]) -> (r: Result<NetlinkErrorMessagePayload, ReadNetlinkErrorMessageError>) {
        NetlinkErrorMessagePayload::try_deserialize(buf)
    }
}

impl PayloadCodec for NetlinkErrorMessagePayload {
    open spec fn spec_round_trips(&self) -> bool {
        true
    }

    proof fn lemma_payload_round_trip(v: &Self) {
        let b = ne_u32(v.error_code) + v.original_header.spec_bytes();
        lemma_ne_u32_round_trip(v.error_code);
        lemma_raw_header_round_trip(v.original_header, seq![]);
        assert(b.subrange(0, 4) =~= ne_u32(v.error_code));
        assert(b.skip(4) =~= v.original_header.spec_bytes() + seq![]);
    }
}

/// What a message's type field makes of it.
#[derive(Debug, PartialEq, Eq)]
pub enum NetlinkMessageType<T> {
    /// No operation, message must be discarded
    Noop,
    /// Error message or ACK
    Error(NetlinkErrorMessagePayload),
    /// End of multipart sequence
    Done,
    /// Overrun notification (Error)
    Overrun,
    /// A message of the protocol itself, with a type of at least
    /// `NLMSG_MIN_TYPE`.
    ProtocolMessage(T),
}

impl<T: Modeled> Modeled for NetlinkMessageType<T> {
    type Model = NetlinkMessageType<T::Model>;

    open spec fn model(&self) -> NetlinkMessageType<T::Model> {
        match self {
            NetlinkMessageType::Noop => NetlinkMessageType::Noop,
            NetlinkMessageType::Error(e) => NetlinkMessageType::Error(*e),
            NetlinkMessageType::Done => NetlinkMessageType::Done,
            NetlinkMessageType::Overrun => NetlinkMessageType::Overrun,
            NetlinkMessageType::ProtocolMessage(p) => NetlinkMessageType::ProtocolMessage(p.model()),
        }
    }
}

/// The type field names one of the four control messages.
pub open spec fn is_control_type(ty: u16) -> bool {
    ty == NLMSG_NOOP || ty == NLMSG_ERROR || ty == NLMSG_DONE || ty == NLMSG_OVERRUN
}

/// Reading a message body failed.
#[derive(Debug, PartialEq, Eq)]
pub enum NetlinkMessageTypeDeserializeError<E> {
    ParseErrorMessageFail(ReadNetlinkErrorMessageError),
    ParseProtocolMessageFail(E),
}

/// What reading a body of message type `ty` from `buf` gives.
pub open spec fn spec_message_type<T: NetlinkPayloadResponse>(ty: u16, buf: Seq<u8>) -> Option<
    NetlinkMessageType<T::Model>,
> {
    if ty == NLMSG_NOOP {
        Some(NetlinkMessageType::Noop)
    } else if ty == NLMSG_ERROR {
        match spec_error_payload(buf) {
            Ok(e) => Some(NetlinkMessageType::Error(e)),
            Err(_) => None,
        }
    } else if ty == NLMSG_DONE {
        Some(NetlinkMessageType::Done)
    } else if ty == NLMSG_OVERRUN {
        Some(NetlinkMessageType::Overrun)
    } else {
        match T::spec_deserialize(buf) {
            Some(v) => Some(NetlinkMessageType::ProtocolMessage(v)),
            None => None,
        }
    }
}

/// `e` is the error reading a body of message type `ty` from `buf` fails
/// with: a short error payload, or the protocol payload's own error.
pub open spec fn spec_message_type_error<T: NetlinkPayloadResponse>(
    ty: u16,
    buf: Seq<u8>,
    e: NetlinkMessageTypeDeserializeError<T::Error>,
) -> bool {
    if ty == NLMSG_ERROR {
        spec_error_payload(buf) matches Err(pe) && e
            == NetlinkMessageTypeDeserializeError::<T::Error>::ParseErrorMessageFail(pe)
    } else if is_control_type(ty) {
        false
    } else {
        e matches NetlinkMessageTypeDeserializeError::ParseProtocolMessageFail(pe)
            && T::spec_deserialize_error(buf, pe)
    }
}

impl<T: NetlinkPayloadRequest> NetlinkMessageType<T> {
    /// The body bytes: none for `Noop`, `Done` and `Overrun`.
    pub open spec fn spec_serialize(&self) -> Option<Seq<u8>> {
        match self {
            NetlinkMessageType::Error(e) => e.spec_serialize(),
            NetlinkMessageType::ProtocolMessage(p) => p.spec_serialize(),
            _ => Some(seq![]),
        }
    }

    pub fn serialize(&self, buf: &mut Vec<u8>) -> (r: Result<(), LengthOverflow>)
        ensures
            appended(self.spec_serialize(), old(buf)@, final(buf)@, r),
    {
        match self {
            NetlinkMessageType::Error(e) => e.serialize(buf),
            NetlinkMessageType::ProtocolMessage(p) => p.serialize(buf),
            _ => {
                assert(buf@ =~= buf@ + seq![]);
                Ok(())
            },
        }
    }
}

impl<T: NetlinkPayloadResponse> NetlinkMessageType<T> {
    /// Reads a body according to the message type: the four control types
    /// have fixed meanings, any other type is a protocol message.
    pub fn deserialize(message_type: u16, buf: &[u8]) -> (r: Result<
        NetlinkMessageType<T>,
        NetlinkMessageTypeDeserializeError<T::Error>,
    >)
        ensures
            decoded_as(spec_message_type::<T>(message_type, buf@), r),
            r matches Err(e) ==> spec_message_type_error::<T>(message_type, buf@, e),
    {
        if message_type == NLMSG_NOOP {
            Ok(NetlinkMessageType::Noop)
        } else if message_type == NLMSG_ERROR {
            match NetlinkErrorMessagePayload::try_deserialize(buf) {
                Ok(e) => Ok(NetlinkMessageType::Error(e)),
                Err(e) => Err(NetlinkMessageTypeDeserializeError::ParseErrorMessageFail(e)),
            }
        } else if message_type == NLMSG_DONE {
            Ok(NetlinkMessageType::Done)
        } else if message_type == NLMSG_OVERRUN {
            Ok(NetlinkMessageType::Overrun)
        } else {
            match T::deserialize(buf) {
                Ok(v) => Ok(NetlinkMessageType::ProtocolMessage(v)),
                Err(e) => Err(NetlinkMessageTypeDeserializeError::ParseProtocolMessageFail(e)),
            }
        }
    }
}

/// A message to send: header fields and body. Its length is filled in when
/// it is written.
pub struct NetlinkMessageRequest<T> {
    pub header: NetlinkMessageHeader,
    pub payload: NetlinkMessageType<T>,
}

impl<T: NetlinkPayloadRequest> NetlinkMessageRequest<T> {
    /// The message bytes: a 4-byte length counting the whole message, the
    /// rest of the header, the body. `None` when the body cannot be written
    /// or the total does not fit in a `u32`.
    pub open spec fn spec_serialize(&self) -> Option<Seq<u8>> {
        match self.payload.spec_serialize() {
            Some(p) => if p.len() + 16 <= u32::MAX {
                Some(spec_prefixed_u32(self.header.spec_bytes() + p))
            } else {
                None
            },
            None => None,
        }
    }

    pub fn serialize(&self, buf: &mut Vec<u8>) -> (r: Result<(), LengthOverflow>)
        ensures
            appended(self.spec_serialize(), old(buf)@, final(buf)@, r),
    {
        let mut body: Vec<u8> = Vec::new();
        self.header.serialize(&mut body);
        match self.payload.serialize(&mut body) {
            Ok(()) => {},
            Err(e) => return Err(e),
        }
        assert(body@ =~= self.header.spec_bytes() + self.payload.spec_serialize().unwrap());
        write_to_buf_with_prefixed_u32_len(buf, body.as_slice())
    }
}

/// The bytes of one message, ready to send.
pub fn serialize<T: NetlinkPayloadRequest>(message: &NetlinkMessageRequest<T>) -> (r: Result<
    Vec<u8>,
    LengthOverflow,
>)
    ensures
        match message.spec_serialize() {
            Some(b) => r matches Ok(v) && v@ == b,
            None => r is Err,
        },
{
    let mut bytes: Vec<u8> = Vec::new();
    let r = message.serialize(&mut bytes);
    assert(Seq::<u8>::empty() + bytes@ =~= bytes@);
    match r {
        Ok(()) => Ok(bytes),
        Err(e) => Err(e),
    }
}

/// A message read from the front of a buffer; the body borrows from it.
#[derive(Debug, PartialEq, Eq)]
pub struct RawNetlinkMessage<'a> {
    pub header: RawNetlinkMessageHeader,
    pub payload: &'a [u8],
}

/// A buffer does not start with a well-formed message.
#[derive(Debug, PartialEq, Eq, Clone, Copy)]
pub enum ReadRawNetlinkMessageError {
    /// Fewer than 16 bytes remain.
    IncompleteHeader { len: usize },
    /// The declared length reaches past the end of the buffer.
    UnexpectedEndOfPayloadBuffer { actual: usize, expected: usize },
    /// The declared length is smaller than the header itself.
    InvalidLength { declared: u32 },
}

/// The header and body of the message at the front of a buffer.
pub struct RawMessageModel {
    pub header: RawNetlinkMessageHeader,
    pub payload: Seq<u8>,
}

/// What reading one message from the front of `buf` gives.
pub open spec fn spec_raw_message(buf: Seq<u8>) -> Result<RawMessageModel, ReadRawNetlinkMessageError> {
    if buf.len() < 16 {
        Err(ReadRawNetlinkMessageError::IncompleteHeader { len: buf.len() as usize })
    } else {
        let header = spec_raw_header(buf);
        if header.len < 16 {
            Err(ReadRawNetlinkMessageError::InvalidLength { declared: header.len })
        } else if buf.len() < header.len {
            Err(
                ReadRawNetlinkMessageError::UnexpectedEndOfPayloadBuffer {
                    actual: (buf.len() - 16) as usize,
                    expected: (header.len - 16) as usize,
                },
            )
        } else {
            Ok(RawMessageModel { header, payload: buf.subrange(16, header.len as int) })
        }
    }
}

impl<'a> RawNetlinkMessage<'a> {
    /// Reads the message at the front of `buf`. Bytes past its declared
    /// length are left alone.
    pub fn try_from(buf: &'a [u8]) -> (r: Result<RawNetlinkMessage<'a>, ReadRawNetlinkMessageError>)
        ensures
            match spec_raw_message(buf@) {
                Ok(m) => r matches Ok(raw) && raw.header == m.header && raw.payload@ == m.payload,
                Err(e) => r == Err::<RawNetlinkMessage<'a>, ReadRawNetlinkMessageError>(e),
            },
    {
        if buf.len() < NLMSG_HDRLEN {
            return Err(ReadRawNetlinkMessageError::IncompleteHeader { len: buf.len() });
        }
        let header = RawNetlinkMessageHeader::deserialize(buf);
        if (header.len as usize) < NLMSG_HDRLEN {
            return Err(ReadRawNetlinkMessageError::InvalidLength { declared: header.len });
        }
        if buf.len() < header.len as usize {
            return Err(
                ReadRawNetlinkMessageError::UnexpectedEndOfPayloadBuffer {
                    actual: buf.len() - NLMSG_HDRLEN,
                    expected: header.len as usize - NLMSG_HDRLEN,
                },
            );
        }
        let payload = slice_subrange(buf, NLMSG_HDRLEN, header.len as usize);
        Ok(RawNetlinkMessage { header, payload })
    }
}

/// A received message: header fields and the body its type field selects.
#[derive(Debug, PartialEq, Eq)]
pub struct NetlinkMessageResponse<T> {
    pub header: NetlinkMessageHeader,
    pub payload: NetlinkMessageType<T>,
}

impl<T: Modeled> Modeled for NetlinkMessageResponse<T> {
    type Model = NetlinkMessageResponse<T::Model>;

    open spec fn model(&self) -> NetlinkMessageResponse<T::Model> {
        NetlinkMessageResponse { header: self.header, payload: self.payload.model() }
    }
}

/// Reading a message failed.
#[derive(Debug, PartialEq, Eq)]
pub enum NetlinkMessageResponseDeserializeError<E> {
    RawReadError(ReadRawNetlinkMessageError),
    PayloadDeserialize(NetlinkMessageTypeDeserializeError<E>),
}

/// The header fields of a complete header, without the length.
pub open spec fn header_fields(raw: RawNetlinkMessageHeader) -> NetlinkMessageHeader {
    NetlinkMessageHeader { ty: raw.ty, flags: raw.flags, seq: raw.seq, pid: raw.pid }
}

/// What reading one message from the front of `buf` gives.
pub open spec fn spec_message<T: NetlinkPayloadResponse>(buf: Seq<u8>) -> Option<
    NetlinkMessageResponse<T::Model>,
> {
    match spec_raw_message(buf) {
        Err(_) => None,
        Ok(m) => match spec_message_type::<T>(m.header.ty, m.payload) {
            None => None,
            Some(p) => Some(NetlinkMessageResponse { header: header_fields(m.header), payload: p }),
        },
    }
}

/// `e` is the error reading one message from the front of `buf` fails
/// with: the framing error, or, once the header reads, the body's error.
pub open spec fn spec_message_error<T: NetlinkPayloadResponse>(
    buf: Seq<u8>,
    e: NetlinkMessageResponseDeserializeError<T::Error>,
) -> bool {
    match spec_raw_message(buf) {
        Err(re) => e == NetlinkMessageResponseDeserializeError::<T::Error>::RawReadError(re),
        Ok(m) => e matches NetlinkMessageResponseDeserializeError::PayloadDeserialize(te)
            && spec_message_type_error::<T>(m.header.ty, m.payload, te),
    }
}

impl<T: NetlinkPayloadResponse> NetlinkMessageResponse<T> {
    /// Decodes a message already split into header and body.
    pub fn try_from(raw: RawNetlinkMessage) -> (r: Result<
        NetlinkMessageResponse<T>,
        NetlinkMessageResponseDeserializeError<T::Error>,
    >)
        ensures
            match spec_message_type::<T>(raw.header.ty, raw.payload@) {
                Some(p) => r matches Ok(m) && m.model() == (NetlinkMessageResponse {
                    header: header_fields(raw.header),
                    payload: p,
                }),
                None => r is Err,
            },
            r matches Err(e) ==> e matches NetlinkMessageResponseDeserializeError::PayloadDeserialize(te)
                && spec_message_type_error::<T>(raw.header.ty, raw.payload@, te),
    {
        let header = NetlinkMessageHeader::from(raw.header);
        match NetlinkMessageType::deserialize(header.ty, raw.payload) {
            Ok(payload) => Ok(NetlinkMessageResponse { header, payload }),
            Err(e) => Err(NetlinkMessageResponseDeserializeError::PayloadDeserialize(e)),
        }
    }

    /// Reads the message at the front of `buf`.
    pub fn deserialize(buf: &[u8]) -> (r: Result<
        NetlinkMessageResponse<T>,
        NetlinkMessageResponseDeserializeError<T::Error>,
    >)
        ensures
            decoded_as(spec_message::<T>(buf@), r),
            r matches Err(e) ==> spec_message_error::<T>(buf@, e),
    {
        match RawNetlinkMessage::try_from(buf) {
            Ok(raw) => NetlinkMessageResponse::try_from(raw),
            Err(e) => Err(NetlinkMessageResponseDeserializeError::RawReadError(e)),
        }
    }
}

proof fn lemma_raw_message_of(raw: RawNetlinkMessageHeader, p: Seq<u8>)
    requires
        raw.len == p.len() + 16,
    ensures
        spec_raw_message(raw.spec_bytes() + p) == Ok::<RawMessageModel, ReadRawNetlinkMessageError>(
            RawMessageModel { header: raw, payload: p },
        ),
{
    let b = raw.spec_bytes() + p;
    lemma_raw_header_round_trip(raw, p);
    assert(b.subrange(16, raw.len as int) =~= p);
}

/// A protocol message written with any header whose type is not a control
/// type reads back as the same header and the payload's model.
#[verifier::rlimit(60)]
pub proof fn lemma_message_round_trip<T: PayloadCodec>(header: NetlinkMessageHeader, payload: T)
    requires
        !is_control_type(header.ty),
        payload.spec_round_trips(),
        (NetlinkMessageRequest { header, payload: NetlinkMessageType::ProtocolMessage(payload) }).spec_serialize() is Some,
    ensures
        spec_message::<T>(
            (NetlinkMessageRequest {
                header,
                payload: NetlinkMessageType::ProtocolMessage(payload),
            }).spec_serialize().unwrap(),
        ) == Some(
            NetlinkMessageResponse {
                header,
                payload: NetlinkMessageType::ProtocolMessage(payload.model()),
            },
        ),
{
    let p = payload.spec_serialize().unwrap();
    let raw = RawNetlinkMessageHeader {
        len: (p.len() + 16) as u32,
        ty: header.ty,
        flags: header.flags,
        seq: header.seq,
        pid: header.pid,
    };
    let b = spec_prefixed_u32(header.spec_bytes() + p);
    assert(b =~= raw.spec_bytes() + p);
    lemma_raw_message_of(raw, p);
    T::lemma_payload_round_trip(&payload);
    assert(header_fields(raw) == header);
}

/// The length field of a written message counts exactly the bytes written.
pub proof fn lemma_message_length_prefix<T: NetlinkPayloadRequest>(m: NetlinkMessageRequest<T>)
    requires
        m.spec_serialize() is Some,
    ensures
        u32_of_ne(m.spec_serialize().unwrap().subrange(0, 4)) == m.spec_serialize().unwrap().len(),
{
    let b = m.spec_serialize().unwrap();
    let p = m.payload.spec_serialize().unwrap();
    let len = (p.len() + 16) as u32;
    lemma_ne_u32_round_trip(len);
    assert(b.subrange(0, 4) =~= ne_u32(len));
}

} // verus!
