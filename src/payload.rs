//! The payload-level codec: what a value writes into a message body and how
//! it is read back, for the built-in payload shapes.
use crate::utils::lemma_encode_utf8_nul_free;
use crate::utils::lemma_first_nul_is_chosen;
use crate::utils::lemma_ne_u16_round_trip;
use crate::utils::lemma_ne_u32_round_trip;
use crate::utils::ne_u16;
use crate::utils::ne_u32;
use crate::utils::nla_get_string;
use crate::utils::nla_get_u16;
use crate::utils::nla_get_u32;
use crate::utils::nla_put_string;
use crate::utils::nla_put_u16;
use crate::utils::nla_put_u32;
use crate::utils::spec_get_string;
use crate::utils::spec_put_string;
use crate::utils::u16_of_ne;
use crate::utils::u32_of_ne;
use crate::utils::LengthOverflow;
use crate::utils::NlaGetStringError;
use crate::utils::ParseNlaIntError;
use vstd::prelude::*;
use vstd::slice::slice_to_vec;
use vstd::utf8::encode_utf8;
use vstd::utf8::encode_utf8_decode_utf8;
use vstd::utf8::encode_utf8_valid_utf8;

verus! {

/// A value with a mathematical meaning that decoders are stated against.
pub trait Modeled {
    type Model;

    spec fn model(&self) -> Self::Model;
}

impl Modeled for () {
    type Model = ();

    open spec fn model(&self) -> () {
        ()
    }
}

impl Modeled for u8 {
    type Model = u8;

    open spec fn model(&self) -> u8 {
        *self
    }
}

impl Modeled for u16 {
    type Model = u16;

    open spec fn model(&self) -> u16 {
        *self
    }
}

impl Modeled for u32 {
    type Model = u32;

    open spec fn model(&self) -> u32 {
        *self
    }
}

impl Modeled for String {
    type Model = Seq<char>;

    open spec fn model(&self) -> Seq<char> {
        self@
    }
}

impl<T: Modeled> Modeled for Vec<T> {
    type Model = Seq<T::Model>;

    open spec fn model(&self) -> Seq<T::Model> {
        Seq::new(self@.len(), |i: int| self@[i].model())
    }
}

/// `after` is `before` with `written` appended and the call succeeded, or,
/// when nothing can be written, the call failed and left `before` as it was.
pub open spec fn appended(
    written: Option<Seq<u8>>,
    before: Seq<u8>,
    after: Seq<u8>,
    r: Result<(), LengthOverflow>,
) -> bool {
    match written {
        Some(b) => r is Ok && after == before + b,
        None => r is Err && after == before,
    }
}

/// `r` is a value whose model is `m`, or an error when `m` is `None`.
pub open spec fn decoded_as<T: Modeled, E>(m: Option<T::Model>, r: Result<T, E>) -> bool {
    match m {
        Some(v) => r matches Ok(x) && x.model() == v,
        None => r is Err,
    }
}

/// A value that can be written as a message payload.
pub trait NetlinkPayloadRequest {
    /// The bytes written, or `None` when a length prefix inside the payload
    /// cannot hold what it frames.
    spec fn spec_serialize(&self) -> Option<Seq<u8>>;

    fn serialize(&self, buf: &mut Vec<u8>) -> (r: Result<(), LengthOverflow>)
        ensures
            appended(self.spec_serialize(), old(buf)@, final(buf)@, r),
    ;
}

/// A value that can be read from a message payload.
pub trait NetlinkPayloadResponse: Sized + Modeled {
    type Error: std::fmt::Debug;

    /// The model of the value read from `buf`, or `None` when reading fails.
    spec fn spec_deserialize(buf: Seq<u8>) -> Option<Self::Model>;

    /// `e` is the error reading `buf` fails with.
    spec fn spec_deserialize_error(buf: Seq<u8>, e: Self::Error) -> bool;

    fn deserialize(buf: &[u8]) -> (r: Result<Self, Self::Error>)
        ensures
            decoded_as(Self::spec_deserialize(buf@), r),
            r matches Err(e) ==> Self::spec_deserialize_error(buf@, e),
    ;
}

/// A payload whose reader undoes its writer.
pub trait PayloadCodec: NetlinkPayloadRequest + NetlinkPayloadResponse {
    /// The value is one that reading back reproduces.
    spec fn spec_round_trips(&self) -> bool;

    proof fn lemma_payload_round_trip(v: &Self)
        requires
            v.spec_round_trips(),
            v.spec_serialize() is Some,
        ensures
            Self::spec_deserialize(v.spec_serialize().unwrap()) == Some(v.model()),
    ;
}

impl NetlinkPayloadRequest for () {
    open spec fn spec_serialize(&self) -> Option<Seq<u8>> {
        Some(seq![])
    }

    fn serialize(&self, buf: &mut Vec<u8>) -> (r: Result<(), LengthOverflow>) {
        assert(buf@ =~= buf@ + seq![]);
        Ok(())
    }
}

impl NetlinkPayloadResponse for () {
    type Error = core::convert::Infallible;

    open spec fn spec_deserialize(buf: Seq<u8>) -> Option<()> {
        Some(())
    }

    /// Reading never fails.
    open spec fn spec_deserialize_error(buf: Seq<u8>, e: core::convert::Infallible) -> bool {
        false
    }

    fn deserialize(buf: &[u8]) -> (r: Result<(), core::convert::Infallible>) {
        Ok(())
    }
}

impl PayloadCodec for () {
    open spec fn spec_round_trips(&self) -> bool {
        true
    }

    proof fn lemma_payload_round_trip(v: &Self) {
    }
}

impl NetlinkPayloadRequest for u16 {
    open spec fn spec_serialize(&self) -> Option<Seq<u8>> {
        Some(ne_u16(*self))
    }

    fn serialize(&self, buf: &mut Vec<u8>) -> (r: Result<(), LengthOverflow>) {
        nla_put_u16(buf, *self);
        Ok(())
    }
}

impl NetlinkPayloadResponse for u16 {
    type Error = ParseNlaIntError;

    open spec fn spec_deserialize(buf: Seq<u8>) -> Option<u16> {
        if buf.len() == 2 {
            Some(u16_of_ne(buf))
        } else {
            None
        }
    }

    open spec fn spec_deserialize_error(buf: Seq<u8>, e: ParseNlaIntError) -> bool {
        e == ParseNlaIntError::ShortBuffer { have: buf.len() as usize, want: 2 }
    }

    fn deserialize(buf: &[u8]) -> (r: Result<u16, ParseNlaIntError>) {
        nla_get_u16(buf)
    }
}

impl PayloadCodec for u16 {
    open spec fn spec_round_trips(&self) -> bool {
        true
    }

    proof fn lemma_payload_round_trip(v: &Self) {
        lemma_ne_u16_round_trip(*v);
    }
}

impl NetlinkPayloadRequest for u32 {
    open spec fn spec_serialize(&self) -> Option<Seq<u8>> {
        Some(ne_u32(*self))
    }

    fn serialize(&self, buf: &mut Vec<u8>) -> (r: Result<(), LengthOverflow>) {
        nla_put_u32(buf, *self);
        Ok(())
    }
}

impl NetlinkPayloadResponse for u32 {
    type Error = ParseNlaIntError;

    open spec fn spec_deserialize(buf: Seq<u8>) -> Option<u32> {
        if buf.len() == 4 {
            Some(u32_of_ne(buf))
        } else {
            None
        }
    }

    open spec fn spec_deserialize_error(buf: Seq<u8>, e: ParseNlaIntError) -> bool {
        e == ParseNlaIntError::ShortBuffer { have: buf.len() as usize, want: 4 }
    }

    fn deserialize(buf: &[u8]) -> (r: Result<u32, ParseNlaIntError>) {
        nla_get_u32(buf)
    }
}

impl PayloadCodec for u32 {
    open spec fn spec_round_trips(&self) -> bool {
        true
    }

    proof fn lemma_payload_round_trip(v: &Self) {
        lemma_ne_u32_round_trip(*v);
    }
}

impl NetlinkPayloadRequest for String {
    open spec fn spec_serialize(&self) -> Option<Seq<u8>> {
        Some(spec_put_string(self@))
    }

    fn serialize(&self, buf: &mut Vec<u8>) -> (r: Result<(), LengthOverflow>) {
        nla_put_string(buf, self);
        Ok(())
    }
}

impl NetlinkPayloadResponse for String {
    type Error = NlaGetStringError;

    open spec fn spec_deserialize(buf: Seq<u8>) -> Option<Seq<char>> {
        match spec_get_string(buf) {
            Ok(s) => Some(s),
            Err(_) => None,
        }
    }

    open spec fn spec_deserialize_error(buf: Seq<u8>, e: NlaGetStringError) -> bool {
        spec_get_string(buf) == Err::<Seq<char>, NlaGetStringError>(e)
    }

    fn deserialize(buf: &[u8]) -> (r: Result<String, NlaGetStringError>) {
        nla_get_string(buf)
    }
}

impl PayloadCodec for String {
    /// The string holds no NUL, which would end it early.
    open spec fn spec_round_trips(&self) -> bool {
        !self@.contains('\0')
    }

    proof fn lemma_payload_round_trip(v: &Self) {
        lemma_encode_utf8_nul_free(v@);
        let e = encode_utf8(v@);
        let b = spec_put_string(v@);
        assert(b.take(e.len() as int) =~= e);
        lemma_first_nul_is_chosen(b, e.len() as int);
        encode_utf8_valid_utf8(v@);
        encode_utf8_decode_utf8(v@);
    }
}

impl NetlinkPayloadRequest for Vec<u8> {
    open spec fn spec_serialize(&self) -> Option<Seq<u8>> {
        Some(self@)
    }

    fn serialize(&self, buf: &mut Vec<u8>) -> (r: Result<(), LengthOverflow>) {
        buf.extend_from_slice(self.as_slice());
        assert(buf@ =~= old(buf)@ + self@);
        Ok(())
    }
}

impl NetlinkPayloadResponse for Vec<u8> {
    type Error = core::convert::Infallible;

    open spec fn spec_deserialize(buf: Seq<u8>) -> Option<Seq<u8>> {
        Some(buf)
    }

    /// Reading never fails.
    open spec fn spec_deserialize_error(buf: Seq<u8>, e: core::convert::Infallible) -> bool {
        false
    }

    fn deserialize(buf: &[u8]) -> (r: Result<Vec<u8>, core::convert::Infallible>) {
        let v = slice_to_vec(buf);
        assert(v.model() =~= buf@);
        Ok(v)
    }
}

impl PayloadCodec for Vec<u8> {
    open spec fn spec_round_trips(&self) -> bool {
        true
    }

    proof fn lemma_payload_round_trip(v: &Self) {
        assert(v.model() =~= v@);
    }
}

impl<T: NetlinkPayloadRequest> NetlinkPayloadRequest for Option<T> {
    open spec fn spec_serialize(&self) -> Option<Seq<u8>> {
        match self {
            Some(v) => v.spec_serialize(),
            None => Some(seq![]),
        }
    }

    fn serialize(&self, buf: &mut Vec<u8>) -> (r: Result<(), LengthOverflow>) {
        match self {
            Some(v) => v.serialize(buf),
            None => {
                assert(buf@ =~= buf@ + seq![]);
                Ok(())
            },
        }
    }
}

} // verus!
