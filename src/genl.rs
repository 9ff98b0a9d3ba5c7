//! Generic Netlink: a 4-byte sub-header (command, version, two reserved
//! bytes) in front of a family's attributes.
use crate::payload::Modeled;
use crate::payload::NetlinkPayloadRequest;
use crate::payload::NetlinkPayloadResponse;
use crate::payload::PayloadCodec;
use crate::utils::LengthOverflow;
use vstd::prelude::*;
use vstd::slice::slice_subrange;

verus! {

/// Size of the Generic Netlink sub-header.
pub const GENL_HDRLEN: usize = 4;

/// The family id of the Generic Netlink controller, which resolves the ids
/// of all other families.
pub const GENL_ID_CTRL: u16 = 16;

/// The command and version of a Generic Netlink message.
#[derive(Debug, PartialEq, Eq, Clone, Copy)]
pub struct GenericNetlinkHeader {
    pub cmd: u8,
    pub version: u8,
}

impl GenericNetlinkHeader {
    pub open spec fn spec_bytes(&self) -> Seq<u8> {
        seq![self.cmd, self.version, 0u8, 0u8]
    }

    /// Writes the command, the version and two reserved zero bytes.
    pub fn serialize(&self, buf: &mut Vec<u8>)
        ensures
            final(buf)@ == old(buf)@ + self.spec_bytes(),
    {
        buf.push(self.cmd);
        buf.push(self.version);
        buf.push(0u8);
        buf.push(0u8);
        assert(buf@ =~= old(buf)@ + self.spec_bytes());
    }

    /// Reads the command and version from the first two of four bytes; the
    /// reserved bytes are ignored.
    pub fn deserialize(buf: &[u8]) -> (r: GenericNetlinkHeader)
        requires
            buf@.len() >= GENL_HDRLEN,
        ensures
            r == (GenericNetlinkHeader { cmd: buf@[0], version: buf@[1] }),
    {
        GenericNetlinkHeader { cmd: buf[0], version: buf[1] }
    }
}

/// A Generic Netlink request: sub-header and payload.
pub struct GenericNetlinkRequest<T> {
    pub header: GenericNetlinkHeader,
    pub payload: T,
}

impl<T: NetlinkPayloadRequest> NetlinkPayloadRequest for GenericNetlinkRequest<T> {
    open spec fn spec_serialize(&self) -> Option<Seq<u8>> {
        match self.payload.spec_serialize() {
            Some(p) => Some(self.header.spec_bytes() + p),
            None => None,
        }
    }

    fn serialize(&self, buf: &mut Vec<u8>) -> (r: Result<(), LengthOverflow>) {
        let start = buf.len();
        self.header.serialize(buf);
        let r = self.payload.serialize(buf);
        match r {
            Ok(()) => {
                assert(buf@ =~= old(buf)@ + (self.header.spec_bytes()
                    + self.payload.spec_serialize().unwrap()));
                Ok(())
            },
            Err(e) => {
                buf.truncate(start);
                assert(buf@ =~= old(buf)@);
                Err(e)
            },
        }
    }
}

/// A Generic Netlink reply: sub-header and payload.
#[derive(Debug, PartialEq, Eq)]
pub struct GenericNetlinkResponse<T> {
    pub header: GenericNetlinkHeader,
    pub payload: T,
}

impl<T: Modeled> Modeled for GenericNetlinkResponse<T> {
    type Model = GenericNetlinkResponse<T::Model>;

    open spec fn model(&self) -> GenericNetlinkResponse<T::Model> {
        GenericNetlinkResponse { header: self.header, payload: self.payload.model() }
    }
}

/// Reading a Generic Netlink reply failed.
#[derive(Debug, PartialEq, Eq)]
pub enum GenericNetlinkResponseDeserializeError<E> {
    /// Fewer than 4 bytes: no room for the sub-header.
    IncompleteHeader { len: usize },
    /// The payload after the sub-header was refused.
    Payload(E),
}

impl<T: NetlinkPayloadResponse> NetlinkPayloadResponse for GenericNetlinkResponse<T> {
    type Error = GenericNetlinkResponseDeserializeError<T::Error>;

    open spec fn spec_deserialize(buf: Seq<u8>) -> Option<GenericNetlinkResponse<T::Model>> {
        if buf.len() < 4 {
            None
        } else {
            match T::spec_deserialize(buf.skip(4)) {
                Some(p) => Some(
                    GenericNetlinkResponse {
                        header: GenericNetlinkHeader { cmd: buf[0], version: buf[1] },
                        payload: p,
                    },
                ),
                None => None,
            }
        }
    }

    open spec fn spec_deserialize_error(
        buf: Seq<u8>,
        e: GenericNetlinkResponseDeserializeError<T::Error>,
    ) -> bool {
        if buf.len() < 4 {
            e == GenericNetlinkResponseDeserializeError::<T::Error>::IncompleteHeader {
                len: buf.len() as usize,
            }
        } else {
            e matches GenericNetlinkResponseDeserializeError::Payload(pe)
                && T::spec_deserialize_error(buf.skip(4), pe)
        }
    }

    fn deserialize(buf: &[u8]) -> (r: Result<
        GenericNetlinkResponse<T>,
        GenericNetlinkResponseDeserializeError<T::Error>,
    >) {
        if buf.len() < GENL_HDRLEN {
            return Err(GenericNetlinkResponseDeserializeError::IncompleteHeader { len: buf.len() });
        }
        let header = GenericNetlinkHeader::deserialize(buf);
        let rest = slice_subrange(buf, GENL_HDRLEN, buf.len());
        assert(rest@ =~= buf@.skip(4));
        match T::deserialize(rest) {
            Ok(payload) => Ok(GenericNetlinkResponse { header, payload }),
            Err(e) => Err(GenericNetlinkResponseDeserializeError::Payload(e)),
        }
    }
}

/// Reading back a written Generic Netlink request gives its sub-header and
/// the model of its payload.
pub proof fn lemma_genl_round_trip<T: PayloadCodec>(header: GenericNetlinkHeader, payload: T)
    requires
        payload.spec_round_trips(),
        payload.spec_serialize() is Some,
    ensures
        GenericNetlinkResponse::<T>::spec_deserialize(
            (GenericNetlinkRequest { header, payload }).spec_serialize().unwrap(),
        ) == Some(GenericNetlinkResponse { header, payload: payload.model() }),
{
    let p = payload.spec_serialize().unwrap();
    let b = header.spec_bytes() + p;
    assert(b.skip(4) =~= p);
    T::lemma_payload_round_trip(&payload);
}

} // verus!
