//! The attribute codec: Netlink attributes (type-length-value records), the
//! two capabilities a schema implements, and sequences of attributes.
use crate::payload::appended;
use crate::payload::decoded_as;
use crate::payload::Modeled;
use crate::payload::NetlinkPayloadRequest;
use crate::payload::NetlinkPayloadResponse;
use crate::payload::PayloadCodec;
use crate::utils::lemma_ne_u16_round_trip;
use crate::utils::ne_u16;
use crate::utils::get_u16_at;
use crate::utils::nla_put_u16;
use crate::utils::nlmsg_align;
use crate::utils::spec_align4;
use crate::utils::spec_prefixed_u16;
use crate::utils::u16_of_ne;
use crate::utils::write_to_buf_with_prefixed_u16_len;
use crate::utils::LengthOverflow;
use crate::utils::NlaGetStringError;
use crate::utils::ParseNlaIntError;
use vstd::prelude::*;
use vstd::slice::slice_subrange;
use vstd::slice::slice_to_vec;

/// The attribute traits under their longer names.
pub use self::Deserialize as NetlinkAttributeDeserializable;
pub use self::Serialize as NetlinkAttributeSerializable;

verus! {

/// Size of an attribute header: a `u16` length and a `u16` type.
pub const NLA_HDRLEN: usize = 4;

/// An attribute read from the front of a buffer; the payload borrows from it.
#[derive(Debug, PartialEq, Eq)]
pub struct RawNetlinkAttribute<'a> {
    pub len: u16,
    pub ty: u16,
    pub payload: &'a [u8],
}

/// A buffer does not start with a well-formed attribute.
#[derive(Debug, PartialEq, Eq, Clone, Copy)]
pub enum ParseRawNetlinkAttributeError {
    /// Fewer than 4 bytes remain.
    IncompleteHeader { len: usize },
    /// The declared length reaches past the end of the buffer.
    UnexpectedEndOfPayloadBuffer { actual: usize, expected: usize },
    /// The declared length is smaller than the header itself.
    InvalidLength { declared: u16 },
}

/// The header fields and payload of the attribute at the front of a buffer.
pub struct RawAttrModel {
    pub len: u16,
    pub ty: u16,
    pub payload: Seq<u8>,
}

/// `e` is the error reading a sequence of attributes from `buf` fails
/// with: that of the first attribute that cannot be split off, or that its
/// schema refuses.
pub open spec fn spec_attrs_error<T: Deserialize>(
    buf: Seq<u8>,
    e: ParseNetlinkAttributeFromBufferError,
) -> bool
    decreases buf.len(),
{
    if buf.len() == 0 {
        false
    } else {
        match spec_raw_attr(buf) {
            Err(re) => e == ParseNetlinkAttributeFromBufferError::PartitionBufferError(re),
            Ok(raw) => match T::spec_deserialize(raw.ty, raw.payload) {
                None => e matches ParseNetlinkAttributeFromBufferError::AttributeDeserializeError(de)
                    && T::spec_deserialize_error(raw.ty, raw.payload, de),
                Some(_) => {
                    let adv = if spec_align4(raw.len as int) < buf.len() {
                        spec_align4(raw.len as int)
                    } else {
                        buf.len() as int
                    };
                    spec_attrs_error::<T>(buf.skip(adv), e)
                },
            },
        }
    }
}

/// `e` is the error reading one attribute from the front of `buf` fails
/// with.
pub open spec fn spec_attr_error<T: Deserialize>(
    buf: Seq<u8>,
    e: ParseNetlinkAttributeFromBufferError,
) -> bool {
    match spec_raw_attr(buf) {
        Err(re) => e == ParseNetlinkAttributeFromBufferError::PartitionBufferError(re),
        Ok(raw) => e matches ParseNetlinkAttributeFromBufferError::AttributeDeserializeError(de)
            && T::spec_deserialize_error(raw.ty, raw.payload, de),
    }
}

/// What reading one attribute from the front of `buf` gives.
pub open spec fn spec_raw_attr(buf: Seq<u8>) -> Result<RawAttrModel, ParseRawNetlinkAttributeError> {
    if buf.len() < 4 {
        Err(ParseRawNetlinkAttributeError::IncompleteHeader { len: buf.len() as usize })
    } else {
        let len = u16_of_ne(buf.subrange(0, 2));
        let ty = u16_of_ne(buf.subrange(2, 4));
        if len < 4 {
            Err(ParseRawNetlinkAttributeError::InvalidLength { declared: len })
        } else if buf.len() < len {
            Err(
                ParseRawNetlinkAttributeError::UnexpectedEndOfPayloadBuffer {
                    actual: (buf.len() - 4) as usize,
                    expected: (len - 4) as usize,
                },
            )
        } else {
            Ok(RawAttrModel { len, ty, payload: buf.subrange(4, len as int) })
        }
    }
}

impl<'a> RawNetlinkAttribute<'a> {
    /// Reads the attribute at the front of `buf`. Bytes past its declared
    /// length are left alone.
    pub fn try_from(buf: &'a [u8]) -> (r: Result<RawNetlinkAttribute<'a>, ParseRawNetlinkAttributeError>)
        ensures
            match spec_raw_attr(buf@) {
                Ok(m) => r matches Ok(a) && a.len == m.len && a.ty == m.ty && a.payload@
                    == m.payload,
                Err(e) => r == Err::<RawNetlinkAttribute<'a>, ParseRawNetlinkAttributeError>(e),
            },
    {
        if buf.len() < NLA_HDRLEN {
            return Err(ParseRawNetlinkAttributeError::IncompleteHeader { len: buf.len() });
        }
        let len = get_u16_at(buf, 0);
        let ty = get_u16_at(buf, 2);
        if (len as usize) < NLA_HDRLEN {
            return Err(ParseRawNetlinkAttributeError::InvalidLength { declared: len });
        }
        if buf.len() < len as usize {
            return Err(
                ParseRawNetlinkAttributeError::UnexpectedEndOfPayloadBuffer {
                    actual: buf.len() - NLA_HDRLEN,
                    expected: len as usize - NLA_HDRLEN,
                },
            );
        }
        let payload = slice_subrange(buf, NLA_HDRLEN, len as usize);
        Ok(RawNetlinkAttribute { len, ty, payload })
    }
}

/// Decoding an attribute failed: the schema's name, the attribute's type id
/// and the cause.
#[derive(Debug, PartialEq, Eq)]
pub struct DeserializeError {
    pub attribute_struct_name: &'static str,
    /// The Netlink attribute type ID deserialization failed on.
    pub nla_type_id: u16,
    pub source: Box<DeserializeErrorSource>,
}

/// Why an attribute's payload could not be decoded.
#[derive(Debug, PartialEq, Eq)]
pub enum DeserializeErrorSource {
    ParseNlaIntError(ParseNlaIntError),
    NlaGetStringError(NlaGetStringError),
    DeserializeBufferError(ParseNetlinkAttributeFromBufferError),
}

/// Reading attributes from a buffer failed.
#[derive(Debug, PartialEq, Eq)]
pub enum ParseNetlinkAttributeFromBufferError {
    /// The buffer could not be split into (length, type, payload) records.
    PartitionBufferError(ParseRawNetlinkAttributeError),
    /// A record's payload was refused by the schema.
    AttributeDeserializeError(DeserializeError),
}

impl vstd::std_specs::convert::FromSpecImpl<ParseNlaIntError> for DeserializeErrorSource {
    open spec fn obeys_from_spec() -> bool {
        true
    }

    open spec fn from_spec(e: ParseNlaIntError) -> DeserializeErrorSource {
        DeserializeErrorSource::ParseNlaIntError(e)
    }
}

impl From<ParseNlaIntError> for DeserializeErrorSource {
    fn from(e: ParseNlaIntError) -> (r: DeserializeErrorSource) {
        DeserializeErrorSource::ParseNlaIntError(e)
    }
}

impl vstd::std_specs::convert::FromSpecImpl<NlaGetStringError> for DeserializeErrorSource {
    open spec fn obeys_from_spec() -> bool {
        true
    }

    open spec fn from_spec(e: NlaGetStringError) -> DeserializeErrorSource {
        DeserializeErrorSource::NlaGetStringError(e)
    }
}

impl From<NlaGetStringError> for DeserializeErrorSource {
    fn from(e: NlaGetStringError) -> (r: DeserializeErrorSource) {
        DeserializeErrorSource::NlaGetStringError(e)
    }
}

impl vstd::std_specs::convert::FromSpecImpl<ParseNetlinkAttributeFromBufferError> for DeserializeErrorSource {
    open spec fn obeys_from_spec() -> bool {
        true
    }

    open spec fn from_spec(e: ParseNetlinkAttributeFromBufferError) -> DeserializeErrorSource {
        DeserializeErrorSource::DeserializeBufferError(e)
    }
}

impl From<ParseNetlinkAttributeFromBufferError> for DeserializeErrorSource {
    fn from(e: ParseNetlinkAttributeFromBufferError) -> (r: DeserializeErrorSource) {
        DeserializeErrorSource::DeserializeBufferError(e)
    }
}

/// The writing side of an attribute schema: a type id and a payload.
pub trait Serialize {
    spec fn spec_type_id(&self) -> u16;

    /// The payload bytes, or `None` when a length prefix inside them cannot
    /// hold what it frames.
    spec fn spec_payload(&self) -> Option<Seq<u8>>;

    fn get_type(&self) -> (r: u16)
        ensures
            r == self.spec_type_id(),
    ;

    fn serialize_payload(&self, buf: &mut Vec<u8>) -> (r: Result<(), LengthOverflow>)
        ensures
            appended(self.spec_payload(), old(buf)@, final(buf)@, r),
    ;
}

/// The reading side of an attribute schema: a value from a type id and a
/// payload.
pub trait Deserialize: Sized + Modeled {
    /// The model of the value decoded from `ty` and `payload`, or `None`
    /// when the payload is refused.
    spec fn spec_deserialize(ty: u16, payload: Seq<u8>) -> Option<Self::Model>;

    /// `e` is the error decoding `ty` and `payload` fails with: the
    /// schema's name, the type id and the cause.
    spec fn spec_deserialize_error(ty: u16, payload: Seq<u8>, e: DeserializeError) -> bool;

    fn deserialize(ty: u16, payload: &[u8]) -> (r: Result<Self, DeserializeError>)
        ensures
            decoded_as(Self::spec_deserialize(ty, payload@), r),
            r matches Err(e) ==> e.nla_type_id == ty && Self::spec_deserialize_error(
                ty,
                payload@,
                e,
            ),
    ;
}

/// A schema whose decoder undoes its encoder.
pub trait AttributeCodec: Serialize + Deserialize {
    /// The value is one that decoding reproduces.
    spec fn spec_round_trips(&self) -> bool;

    proof fn lemma_round_trip(v: &Self)
        requires
            v.spec_round_trips(),
            v.spec_payload() is Some,
        ensures
            Self::spec_deserialize(v.spec_type_id(), v.spec_payload().unwrap()) == Some(v.model()),
    ;
}

/// The payload of `v` fits in one attribute.
pub open spec fn attr_fits<T: Serialize>(v: T) -> bool {
    &&& v.spec_payload() is Some
    &&& v.spec_payload().unwrap().len() + 4 <= u16::MAX
}

/// The attribute header and payload bytes of `v`.
pub open spec fn spec_attr_bytes<T: Serialize>(v: T) -> Seq<u8> {
    spec_prefixed_u16(ne_u16(v.spec_type_id()) + v.spec_payload().unwrap())
}

/// The whole attribute written for `v`, or `None` when it cannot be framed.
pub open spec fn spec_attr<T: Serialize>(v: T) -> Option<Seq<u8>> {
    if attr_fits(v) {
        Some(spec_attr_bytes(v))
    } else {
        None
    }
}

/// `b` followed by zero bytes up to the next multiple of 4.
pub open spec fn padded(b: Seq<u8>) -> Seq<u8> {
    b + Seq::new((spec_align4(b.len() as int) - b.len()) as nat, |i: int| 0u8)
}

/// Every attribute of `vs`, each padded to a multiple of 4 bytes.
pub open spec fn spec_padded_attrs<T: Serialize>(vs: Seq<T>) -> Seq<u8>
    decreases vs.len(),
{
    if vs.len() == 0 {
        seq![]
    } else {
        padded(spec_attr_bytes(vs[0])) + spec_padded_attrs(vs.drop_first())
    }
}

/// The attributes of `vs` back to back, padded between them but not after
/// the last.
pub open spec fn spec_attrs_bytes<T: Serialize>(vs: Seq<T>) -> Seq<u8> {
    if vs.len() == 0 {
        seq![]
    } else {
        spec_padded_attrs(vs.drop_last()) + spec_attr_bytes(vs.last())
    }
}

/// Every attribute of `vs` fits its length prefix.
pub open spec fn attrs_fit<T: Serialize>(vs: Seq<T>) -> bool {
    forall|i: int| 0 <= i < vs.len() ==> attr_fits(#[trigger] vs[i])
}

/// The bytes written for the sequence `vs`, or `None` when one of its
/// attributes cannot be framed.
pub open spec fn spec_attrs<T: Serialize>(vs: Seq<T>) -> Option<Seq<u8>> {
    if attrs_fit(vs) {
        Some(spec_attrs_bytes(vs))
    } else {
        None
    }
}

/// What reading a sequence of attributes from `buf` gives: after each
/// attribute the cursor moves by its 4-aligned length, or to the end of the
/// buffer when the last attribute carries no padding.
pub open spec fn spec_parse_attrs<T: Deserialize>(buf: Seq<u8>) -> Option<Seq<T::Model>>
    decreases buf.len(),
{
    if buf.len() == 0 {
        Some(seq![])
    } else {
        match spec_raw_attr(buf) {
            Err(_) => None,
            Ok(raw) => match T::spec_deserialize(raw.ty, raw.payload) {
                None => None,
                Some(v) => {
                    let adv = if spec_align4(raw.len as int) < buf.len() {
                        spec_align4(raw.len as int)
                    } else {
                        buf.len() as int
                    };
                    match spec_parse_attrs::<T>(buf.skip(adv)) {
                        None => None,
                        Some(rest) => Some(seq![v] + rest),
                    }
                },
            },
        }
    }
}

/// What reading one attribute from the front of `buf` gives.
pub open spec fn spec_parse_attr<T: Deserialize>(buf: Seq<u8>) -> Option<T::Model> {
    match spec_raw_attr(buf) {
        Err(_) => None,
        Ok(raw) => T::spec_deserialize(raw.ty, raw.payload),
    }
}

/// Writes `v` as a whole attribute: length, type id, payload.
pub fn serialize_attr<T: Serialize>(v: &T, buf: &mut Vec<u8>) -> (r: Result<(), LengthOverflow>)
    ensures
        appended(spec_attr(*v), old(buf)@, final(buf)@, r),
{
    let mut body: Vec<u8> = Vec::new();
    nla_put_u16(&mut body, v.get_type());
    match v.serialize_payload(&mut body) {
        Ok(()) => {},
        Err(e) => return Err(e),
    }
    assert(body@ =~= ne_u16(v.spec_type_id()) + v.spec_payload().unwrap());
    write_to_buf_with_prefixed_u16_len(buf, body.as_slice())
}

proof fn lemma_padded_attrs_push<T: Serialize>(vs: Seq<T>, v: T)
    ensures
        spec_padded_attrs(vs.push(v)) == spec_padded_attrs(vs) + padded(spec_attr_bytes(v)),
    decreases vs.len(),
{
    if vs.len() == 0 {
        assert(vs.push(v).drop_first() =~= vs);
        assert(spec_padded_attrs(vs.push(v).drop_first()) == Seq::<u8>::empty());
        assert(spec_padded_attrs(vs.push(v)) =~= padded(spec_attr_bytes(v)));
    } else {
        assert(vs.push(v).drop_first() =~= vs.drop_first().push(v));
        lemma_padded_attrs_push(vs.drop_first(), v);
        assert(spec_padded_attrs(vs.push(v)) =~= spec_padded_attrs(vs) + padded(
            spec_attr_bytes(v),
        ));
    }
}

/// Appends zero bytes until `len` bytes, counted from `len - n`, reach a
/// multiple of 4.
fn put_padding(buf: &mut Vec<u8>, n: usize)
    requires
        n + 3 <= usize::MAX,
    ensures
        final(buf)@ == old(buf)@ + Seq::new(
            (spec_align4(n as int) - n) as nat,
            |i: int| 0u8,
        ),
{
    let target = nlmsg_align(n);
    let mut k: usize = n;
    while k < target
        invariant
            n <= k <= target,
            target == spec_align4(n as int),
            buf@ == old(buf)@ + Seq::new((k - n) as nat, |i: int| 0u8),
        decreases target - k,
    {
        buf.push(0u8);
        k = k + 1;
        assert(buf@ =~= old(buf)@ + Seq::new((k - n) as nat, |i: int| 0u8));
    }
}

/// Writes the attributes of `vs` in order, padding each but the last to a
/// multiple of 4 bytes. On failure nothing is appended.
pub fn serialize_attrs<T: Serialize>(vs: &Vec<T>, buf: &mut Vec<u8>) -> (r: Result<
    (),
    LengthOverflow,
>)
    ensures
        appended(spec_attrs(vs@), old(buf)@, final(buf)@, r),
{
    let start = buf.len();
    let n = vs.len();
    if n == 0 {
        assert(buf@ =~= old(buf)@ + seq![]);
        return Ok(());
    }
    let mut last_len: usize = 0;
    let mut i: usize = 0;
    while i < n
        invariant
            n == vs@.len(),
            0 <= i <= n,
            start == old(buf)@.len(),
            i == 0 ==> buf@ == old(buf)@,
            i > 0 ==> buf@ == old(buf)@ + spec_padded_attrs(vs@.take(i - 1)) + spec_attr_bytes(
                vs@[i - 1],
            ),
            i > 0 ==> last_len == spec_attr_bytes(vs@[i - 1]).len() && last_len <= u16::MAX,
            forall|j: int| 0 <= j < i ==> attr_fits(#[trigger] vs@[j]),
        decreases n - i,
    {
        if i > 0 {
            put_padding(buf, last_len);
            proof {
                lemma_padded_attrs_push(vs@.take(i - 1), vs@[i - 1]);
                assert(vs@.take(i - 1).push(vs@[i - 1]) =~= vs@.take(i as int));
                assert(buf@ =~= old(buf)@ + spec_padded_attrs(vs@.take(i as int)));
            }
        } else {
            assert(buf@ =~= old(buf)@ + spec_padded_attrs(vs@.take(0)));
        }
        let before = buf.len();
        match serialize_attr(&vs[i], buf) {
            Ok(()) => {},
            Err(e) => {
                buf.truncate(start);
                assert(buf@ =~= old(buf)@);
                assert(!attr_fits(vs@[i as int]));
                return Err(e);
            },
        }
        last_len = buf.len() - before;
        i = i + 1;
    }
    assert(vs@.take(n - 1) =~= vs@.drop_last());
    assert(attrs_fit(vs@));
    assert(buf@ =~= old(buf)@ + spec_attrs_bytes(vs@));
    Ok(())
}

/// `head` in front of the sequence in `o`, if there is one.
pub open spec fn prepend<A>(head: Seq<A>, o: Option<Seq<A>>) -> Option<Seq<A>> {
    match o {
        Some(rest) => Some(head + rest),
        None => None,
    }
}

/// Reads one attribute from the front of `buf` and decodes it with `T`.
/// Bytes past the attribute's declared length are ignored.
pub fn deserialize_attr<T: Deserialize>(buf: &[u8]) -> (r: Result<
    T,
    ParseNetlinkAttributeFromBufferError,
>)
    ensures
        decoded_as(spec_parse_attr::<T>(buf@), r),
        r matches Err(e) ==> spec_attr_error::<T>(buf@, e),
{
    let raw = match RawNetlinkAttribute::try_from(buf) {
        Ok(raw) => raw,
        Err(e) => return Err(ParseNetlinkAttributeFromBufferError::PartitionBufferError(e)),
    };
    match T::deserialize(raw.ty, raw.payload) {
        Ok(v) => Ok(v),
        Err(e) => Err(ParseNetlinkAttributeFromBufferError::AttributeDeserializeError(e)),
    }
}

/// Reads attributes one after another until `buf` is exhausted, decoding
/// each with `T`. Stops at the first attribute that cannot be read.
pub fn deserialize_attrs<T: Deserialize>(buf: &[u8]) -> (r: Result<
    Vec<T>,
    ParseNetlinkAttributeFromBufferError,
>)
    ensures
        decoded_as(spec_parse_attrs::<T>(buf@), r),
        r matches Err(e) ==> spec_attrs_error::<T>(buf@, e),
{
    let mut attrs: Vec<T> = Vec::new();
    let mut off: usize = 0;
    assert(buf@.skip(0) =~= buf@);
    assert(attrs.model() =~= Seq::<T::Model>::empty());
    proof {
        match spec_parse_attrs::<T>(buf@) {
            Some(all) => assert(Seq::<T::Model>::empty() + all =~= all),
            None => {},
        }
    }
    while off < buf.len()
        invariant
            off <= buf@.len(),
            spec_parse_attrs::<T>(buf@) == prepend(attrs.model(), spec_parse_attrs::<T>(buf@.skip(off as int))),
            forall|e: ParseNetlinkAttributeFromBufferError| #[trigger]
                spec_attrs_error::<T>(buf@, e) == spec_attrs_error::<T>(buf@.skip(off as int), e),
        decreases buf@.len() - off,
    {
        let view = slice_subrange(buf, off, buf.len());
        assert(view@ =~= buf@.skip(off as int));
        let raw = match RawNetlinkAttribute::try_from(view) {
            Ok(raw) => raw,
            Err(e) => return Err(ParseNetlinkAttributeFromBufferError::PartitionBufferError(e)),
        };
        let aligned = nlmsg_align(raw.len as usize);
        let remaining = view.len();
        let adv = if aligned < remaining {
            aligned
        } else {
            remaining
        };
        match T::deserialize(raw.ty, raw.payload) {
            Ok(v) => {
                let ghost old_model = attrs.model();
                attrs.push(v);
                assert(attrs.model() =~= old_model.push(v.model()));
            },
            Err(e) => return Err(ParseNetlinkAttributeFromBufferError::AttributeDeserializeError(e)),
        }
        assert(buf@.skip(off as int).skip(adv as int) =~= buf@.skip(off + adv));
        assert forall|e: ParseNetlinkAttributeFromBufferError| #[trigger]
            spec_attrs_error::<T>(buf@, e) == spec_attrs_error::<T>(buf@.skip(off + adv), e) by {
            assert(spec_attrs_error::<T>(buf@, e) == spec_attrs_error::<T>(buf@.skip(off as int), e));
        }
        off = off + adv;
        proof {
            let ghost before = attrs.model().drop_last();
            assert(attrs.model() =~= before + seq![attrs.model().last()]);
            match spec_parse_attrs::<T>(buf@.skip(off as int)) {
                Some(rest) => {
                    assert(before + (seq![attrs.model().last()] + rest) =~= attrs.model() + rest);
                },
                None => {},
            }
        }
    }
    assert(buf@.skip(off as int) =~= Seq::<u8>::empty());
    assert(attrs.model() + seq![] =~= attrs.model());
    Ok(attrs)
}

/// An attribute whose type id the schema does not declare, kept verbatim.
#[derive(Debug, PartialEq, Eq)]
pub struct UnknownAttribute {
    pub ty: u16,
    pub payload: Vec<u8>,
}

impl Modeled for UnknownAttribute {
    type Model = (u16, Seq<u8>);

    open spec fn model(&self) -> (u16, Seq<u8>) {
        (self.ty, self.payload@)
    }
}

impl Serialize for UnknownAttribute {
    open spec fn spec_type_id(&self) -> u16 {
        self.ty
    }

    open spec fn spec_payload(&self) -> Option<Seq<u8>> {
        Some(self.payload@)
    }

    fn get_type(&self) -> (r: u16) {
        self.ty
    }

    fn serialize_payload(&self, buf: &mut Vec<u8>) -> (r: Result<(), LengthOverflow>) {
        buf.extend_from_slice(self.payload.as_slice());
        assert(buf@ =~= old(buf)@ + self.payload@);
        Ok(())
    }
}

impl Deserialize for UnknownAttribute {
    open spec fn spec_deserialize(ty: u16, payload: Seq<u8>) -> Option<(u16, Seq<u8>)> {
        Some((ty, payload))
    }

    /// Decoding never fails.
    open spec fn spec_deserialize_error(ty: u16, payload: Seq<u8>, e: DeserializeError) -> bool {
        false
    }

    fn deserialize(ty: u16, payload: &[u8]) -> (r: Result<UnknownAttribute, DeserializeError>) {
        Ok(UnknownAttribute { ty, payload: slice_to_vec(payload) })
    }
}

impl AttributeCodec for UnknownAttribute {
    open spec fn spec_round_trips(&self) -> bool {
        true
    }

    proof fn lemma_round_trip(v: &Self) {
    }
}

/// The type id of the generic nested container.
pub const NESTED_ATTR_NLA_TYPE: u16 = 0;

/// Zero or more child attributes carried as one attribute's payload.
#[derive(Debug, PartialEq, Eq)]
pub struct Nested<T>(pub Vec<T>);

impl<T: Modeled> Modeled for Nested<T> {
    type Model = Seq<T::Model>;

    open spec fn model(&self) -> Seq<T::Model> {
        self.0.model()
    }
}

impl<T: Serialize> Serialize for Nested<T> {
    open spec fn spec_type_id(&self) -> u16 {
        NESTED_ATTR_NLA_TYPE
    }

    open spec fn spec_payload(&self) -> Option<Seq<u8>> {
        spec_attrs(self.0@)
    }

    fn get_type(&self) -> (r: u16) {
        NESTED_ATTR_NLA_TYPE
    }

    fn serialize_payload(&self, buf: &mut Vec<u8>) -> (r: Result<(), LengthOverflow>) {
        serialize_attrs(&self.0, buf)
    }
}

impl<T: Deserialize> Deserialize for Nested<T> {
    open spec fn spec_deserialize(ty: u16, payload: Seq<u8>) -> Option<Seq<T::Model>> {
        spec_parse_attrs::<T>(payload)
    }

    open spec fn spec_deserialize_error(ty: u16, payload: Seq<u8>, e: DeserializeError) -> bool {
        &&& e.attribute_struct_name == "Nested"
        &&& e.nla_type_id == ty
        &&& *e.source matches DeserializeErrorSource::DeserializeBufferError(be)
            && spec_attrs_error::<T>(payload, be)
    }

    fn deserialize(ty: u16, payload: &[u8]) -> (r: Result<Nested<T>, DeserializeError>) {
        match deserialize_attrs(payload) {
            Ok(attrs) => Ok(Nested(attrs)),
            Err(e) => Err(
                DeserializeError {
                    attribute_struct_name: "Nested",
                    nla_type_id: ty,
                    source: Box::new(DeserializeErrorSource::DeserializeBufferError(e)),
                },
            ),
        }
    }
}

impl<T: AttributeCodec> AttributeCodec for Nested<T> {
    open spec fn spec_round_trips(&self) -> bool {
        all_round_trip(self.0@)
    }

    proof fn lemma_round_trip(v: &Self) {
        lemma_attrs_round_trip(v.0@);
        assert(v.0.model() =~= Seq::new(v.0@.len(), |i: int| v.0@[i].model()));
    }
}

impl<T: Serialize> NetlinkPayloadRequest for Vec<T> {
    open spec fn spec_serialize(&self) -> Option<Seq<u8>> {
        spec_attrs(self@)
    }

    fn serialize(&self, buf: &mut Vec<u8>) -> (r: Result<(), LengthOverflow>) {
        serialize_attrs(self, buf)
    }
}

impl<T: Deserialize> NetlinkPayloadResponse for Vec<T> {
    type Error = ParseNetlinkAttributeFromBufferError;

    open spec fn spec_deserialize(buf: Seq<u8>) -> Option<Seq<T::Model>> {
        spec_parse_attrs::<T>(buf)
    }

    open spec fn spec_deserialize_error(buf: Seq<u8>, e: ParseNetlinkAttributeFromBufferError) -> bool {
        spec_attrs_error::<T>(buf, e)
    }

    fn deserialize(buf: &[u8]) -> (r: Result<Vec<T>, ParseNetlinkAttributeFromBufferError>) {
        deserialize_attrs(buf)
    }
}

impl<T: AttributeCodec> PayloadCodec for Vec<T> {
    open spec fn spec_round_trips(&self) -> bool {
        all_round_trip(self@)
    }

    proof fn lemma_payload_round_trip(v: &Self) {
        lemma_attrs_round_trip(v@);
    }
}

/// Every value of `vs` is one its schema decodes back.
pub open spec fn all_round_trip<T: AttributeCodec>(vs: Seq<T>) -> bool {
    forall|i: int| 0 <= i < vs.len() ==> (#[trigger] vs[i]).spec_round_trips()
}

/// The models of the values of `vs`, in order.
pub open spec fn models<T: Modeled>(vs: Seq<T>) -> Seq<T::Model> {
    Seq::new(vs.len(), |i: int| vs[i].model())
}

/// The header of an attribute written for `v` reads back as its length,
/// type id and payload, whatever follows it.
pub proof fn lemma_raw_attr_of<T: Serialize>(v: T, rest: Seq<u8>)
    requires
        attr_fits(v),
    ensures
        spec_raw_attr(spec_attr_bytes(v) + rest) == Ok::<RawAttrModel, ParseRawNetlinkAttributeError>(
            RawAttrModel {
                len: spec_attr_bytes(v).len() as u16,
                ty: v.spec_type_id(),
                payload: v.spec_payload().unwrap(),
            },
        ),
        spec_attr_bytes(v).len() == v.spec_payload().unwrap().len() + 4,
{
    let p = v.spec_payload().unwrap();
    let ty = v.spec_type_id();
    let l = (p.len() + 4) as u16;
    let b = spec_attr_bytes(v) + rest;
    lemma_ne_u16_round_trip(l);
    lemma_ne_u16_round_trip(ty);
    assert(ne_u16(ty).len() + p.len() + 2 == l);
    assert(b.subrange(0, 2) =~= ne_u16(l));
    assert(b.subrange(2, 4) =~= ne_u16(ty));
    assert(b.subrange(4, l as int) =~= p);
}

proof fn lemma_attrs_bytes_front<T: Serialize>(vs: Seq<T>)
    requires
        vs.len() >= 2,
    ensures
        spec_attrs_bytes(vs) == padded(spec_attr_bytes(vs[0])) + spec_attrs_bytes(vs.drop_first()),
{
    assert(vs.drop_last().drop_first() =~= vs.drop_first().drop_last());
    assert(vs.drop_last()[0] == vs[0]);
    assert(vs.drop_first().last() == vs.last());
}

proof fn lemma_parse_last<T: AttributeCodec>(v: T)
    requires
        attr_fits(v),
        v.spec_round_trips(),
    ensures
        spec_parse_attrs::<T>(spec_attr_bytes(v)) == Some(seq![v.model()]),
{
    let b = spec_attr_bytes(v);
    T::lemma_round_trip(&v);
    assert(b + seq![] =~= b);
    lemma_raw_attr_of(v, seq![]);
    assert(b.skip(b.len() as int) =~= Seq::<u8>::empty());
    assert(spec_parse_attrs::<T>(Seq::<u8>::empty()) == Some(Seq::<T::Model>::empty()));
    assert(seq![v.model()] + seq![] =~= seq![v.model()]);
}

proof fn lemma_parse_front<T: AttributeCodec>(v: T, rest: Seq<u8>)
    requires
        attr_fits(v),
        v.spec_round_trips(),
        rest.len() > 0,
    ensures
        spec_parse_attrs::<T>(padded(spec_attr_bytes(v)) + rest) == prepend(
            seq![v.model()],
            spec_parse_attrs::<T>(rest),
        ),
{
    let a = spec_attr_bytes(v);
    let pad = Seq::new((spec_align4(a.len() as int) - a.len()) as nat, |i: int| 0u8);
    let b = padded(a) + rest;
    T::lemma_round_trip(&v);
    assert(b =~= a + (pad + rest));
    lemma_raw_attr_of(v, pad + rest);
    assert(b.skip(spec_align4(a.len() as int)) =~= rest);
}

proof fn lemma_attrs_bytes_nonempty<T: Serialize>(vs: Seq<T>)
    requires
        vs.len() > 0,
        attr_fits(vs[0]),
    ensures
        spec_attrs_bytes(vs).len() > 0,
{
    if vs.len() >= 2 {
        lemma_attrs_bytes_front(vs);
    } else {
        assert(vs.drop_last() =~= Seq::<T>::empty());
    }
}

/// Decoding the bytes written for a sequence of attributes gives back the
/// models of its values, for values that each decode back.
pub proof fn lemma_attrs_round_trip<T: AttributeCodec>(vs: Seq<T>)
    requires
        attrs_fit(vs),
        all_round_trip(vs),
    ensures
        spec_parse_attrs::<T>(spec_attrs_bytes(vs)) == Some(models(vs)),
    decreases vs.len(),
{
    if vs.len() == 0 {
        assert(models(vs) =~= Seq::<T::Model>::empty());
    } else {
        let v = vs[0];
        assert(attr_fits(v));
        assert(v.spec_round_trips());
        if vs.len() == 1 {
            assert(vs.drop_last() =~= Seq::<T>::empty());
            assert(spec_attrs_bytes(vs) =~= spec_attr_bytes(v));
            lemma_parse_last(v);
            assert(models(vs) =~= seq![v.model()]);
        } else {
            let tail = vs.drop_first();
            assert(attrs_fit(tail)) by {
                assert forall|i: int| 0 <= i < tail.len() implies attr_fits(#[trigger] tail[i]) by {
                    assert(tail[i] == vs[i + 1]);
                }
            }
            assert(all_round_trip(tail)) by {
                assert forall|i: int| 0 <= i < tail.len() implies (#[trigger] tail[i]).spec_round_trips() by {
                    assert(tail[i] == vs[i + 1]);
                }
            }
            lemma_attrs_bytes_front(vs);
            assert(attr_fits(tail[0]));
            lemma_attrs_bytes_nonempty(tail);
            lemma_parse_front(v, spec_attrs_bytes(tail));
            lemma_attrs_round_trip(tail);
            assert(models(vs) =~= seq![v.model()] + models(tail));
        }
    }
}

/// The length field of an attribute written for `v`: header plus payload.
pub open spec fn attr_len<T: Serialize>(v: T) -> int {
    v.spec_payload().unwrap().len() + 4int
}

/// The sum of the 4-aligned lengths of the attributes of `vs`.
pub open spec fn sum_aligned_lens<T: Serialize>(vs: Seq<T>) -> int
    decreases vs.len(),
{
    if vs.len() == 0 {
        0
    } else {
        spec_align4(attr_len(vs[0])) + sum_aligned_lens(vs.drop_first())
    }
}

proof fn lemma_padded_attrs_len<T: Serialize>(vs: Seq<T>)
    requires
        attrs_fit(vs),
    ensures
        spec_padded_attrs(vs).len() == sum_aligned_lens(vs),
    decreases vs.len(),
{
    if vs.len() > 0 {
        assert(attr_fits(vs[0]));
        assert(attrs_fit(vs.drop_first())) by {
            assert forall|i: int| 0 <= i < vs.drop_first().len() implies attr_fits(
                #[trigger] vs.drop_first()[i],
            ) by {
                assert(vs.drop_first()[i] == vs[i + 1]);
            }
        }
        lemma_padded_attrs_len(vs.drop_first());
    }
}

/// A written attribute reads back as the value it was written from, for
/// every value its schema decodes back (not a wildcard value under a
/// declared id, no string with a NUL inside).
pub proof fn lemma_attr_round_trip<T: AttributeCodec>(v: T)
    requires
        v.spec_round_trips(),
        spec_attr(v) is Some,
    ensures
        spec_parse_attr::<T>(spec_attr(v).unwrap()) == Some(v.model()),
{
    lemma_raw_attr_of(v, seq![]);
    assert(spec_attr_bytes(v) + seq![] =~= spec_attr_bytes(v));
    T::lemma_round_trip(&v);
}

proof fn lemma_subrange_of_concat(x: Seq<u8>, y: Seq<u8>, lo: int, hi: int)
    requires
        0 <= lo <= hi,
    ensures
        hi <= x.len() ==> (x + y).subrange(lo, hi) == x.subrange(lo, hi),
        x.len() <= lo && hi <= x.len() + y.len() ==> (x + y).subrange(lo, hi) == y.subrange(
            lo - x.len(),
            hi - x.len(),
        ),
{
    if hi <= x.len() {
        assert((x + y).subrange(lo, hi) =~= x.subrange(lo, hi));
    }
    if x.len() <= lo && hi <= x.len() + y.len() {
        assert((x + y).subrange(lo, hi) =~= y.subrange(lo - x.len(), hi - x.len()));
    }
}

proof fn lemma_sum_aligned_lens_nonneg<T: Serialize>(vs: Seq<T>)
    ensures
        sum_aligned_lens(vs) >= 0,
    decreases vs.len(),
{
    if vs.len() > 0 {
        let n = attr_len(vs[0]);
        assert(spec_align4(n) >= 0) by (nonlinear_arith)
            requires
                n >= 4,
                spec_align4(n) == (n + 3) / 4 * 4,
        ;
        lemma_sum_aligned_lens_nonneg(vs.drop_first());
    }
}

proof fn lemma_attr_bytes_len<T: Serialize>(v: T)
    requires
        attr_fits(v),
    ensures
        spec_attr_bytes(v).len() == attr_len(v),
{
    lemma_raw_attr_of(v, seq![]);
}

/// Within the padded attributes of `vs`, attribute `i` stands at the sum of
/// the aligned lengths of those before it.
proof fn lemma_padded_attrs_at<T: Serialize>(vs: Seq<T>, i: int)
    requires
        attrs_fit(vs),
        0 <= i < vs.len(),
    ensures
        sum_aligned_lens(vs.take(i)) + attr_len(vs[i]) <= spec_padded_attrs(vs).len(),
        spec_padded_attrs(vs).subrange(
            sum_aligned_lens(vs.take(i)),
            sum_aligned_lens(vs.take(i)) + attr_len(vs[i]),
        ) == spec_attr_bytes(vs[i]),
    decreases vs.len(),
{
    let a = spec_attr_bytes(vs[0]);
    assert(attr_fits(vs[0]));
    lemma_attr_bytes_len(vs[0]);
    let rest = vs.drop_first();
    assert(attrs_fit(rest)) by {
        assert forall|j: int| 0 <= j < rest.len() implies attr_fits(#[trigger] rest[j]) by {
            assert(rest[j] == vs[j + 1]);
        }
    }
    lemma_padded_attrs_len(rest);
    let whole = spec_padded_attrs(vs);
    assert(whole == padded(a) + spec_padded_attrs(rest));
    assert(padded(a).len() == spec_align4(attr_len(vs[0])));
    if i == 0 {
        assert(vs.take(0) =~= Seq::<T>::empty());
        assert(whole.subrange(0, attr_len(vs[0])) =~= a);
    } else {
        lemma_padded_attrs_at(rest, i - 1);
        assert(vs.take(i)[0] == vs[0]);
        assert(vs.take(i).drop_first() =~= rest.take(i - 1));
        assert(rest[i - 1] == vs[i]);
        let o = sum_aligned_lens(rest.take(i - 1));
        lemma_sum_aligned_lens_nonneg(rest.take(i - 1));
        assert(sum_aligned_lens(vs.take(i)) == spec_align4(attr_len(vs[0])) + o);
        lemma_subrange_of_concat(
            padded(a),
            spec_padded_attrs(rest),
            padded(a).len() + o,
            padded(a).len() + o + attr_len(vs[i]),
        );
    }
}

/// The bytes written for a sequence of attributes are the attributes back
/// to back, each but the last padded to a multiple of 4: attribute `i`
/// starts at the sum of the aligned lengths of those before it, and the
/// total length is the sum of the aligned lengths of all but the last plus
/// the unpadded length of the last. Reading them back gives the sequence
/// when each value is one its schema decodes back.
pub proof fn lemma_attrs_layout<T: Serialize>(vs: Seq<T>)
    requires
        spec_attrs(vs) is Some,
    ensures
        vs.len() == 0 ==> spec_attrs(vs).unwrap().len() == 0,
        vs.len() > 0 ==> spec_attrs(vs).unwrap().len() == sum_aligned_lens(vs.drop_last())
            + attr_len(vs.last()),
        forall|i: int|
            0 <= i < vs.len() ==> spec_attrs(vs).unwrap().subrange(
                sum_aligned_lens(vs.take(i)),
                sum_aligned_lens(vs.take(i)) + attr_len(#[trigger] vs[i]),
            ) == spec_attr_bytes(vs[i]),
{
    if vs.len() > 0 {
        let init = vs.drop_last();
        let n = vs.len();
        assert(attrs_fit(init)) by {
            assert forall|i: int| 0 <= i < init.len() implies attr_fits(#[trigger] init[i]) by {
                assert(init[i] == vs[i]);
            }
        }
        lemma_padded_attrs_len(init);
        assert(attr_fits(vs[n - 1]));
        lemma_attr_bytes_len(vs[n - 1]);
        let b = spec_attrs(vs).unwrap();
        assert(b == spec_padded_attrs(init) + spec_attr_bytes(vs.last()));
        assert forall|i: int| 0 <= i < vs.len() implies b.subrange(
            sum_aligned_lens(vs.take(i)),
            sum_aligned_lens(vs.take(i)) + attr_len(#[trigger] vs[i]),
        ) == spec_attr_bytes(vs[i]) by {
            if i == n - 1 {
                assert(vs.take(i) =~= init);
                assert(b.subrange(spec_padded_attrs(init).len() as int, b.len() as int)
                    =~= spec_attr_bytes(vs.last()));
            } else {
                lemma_padded_attrs_at(init, i);
                assert(init.take(i) =~= vs.take(i));
                assert(init[i] == vs[i]);
                let o = sum_aligned_lens(vs.take(i));
                lemma_sum_aligned_lens_nonneg(vs.take(i));
                lemma_subrange_of_concat(
                    spec_padded_attrs(init),
                    spec_attr_bytes(vs.last()),
                    o,
                    o + attr_len(vs[i]),
                );
            }
        }
    }
}

/// Reading back the bytes written for a sequence of attributes gives the
/// sequence, when each value is one its schema decodes back.
pub proof fn lemma_attrs_layout_round_trip<T: AttributeCodec>(vs: Seq<T>)
    requires
        spec_attrs(vs) is Some,
        all_round_trip(vs),
    ensures
        spec_parse_attrs::<T>(spec_attrs(vs).unwrap()) == Some(models(vs)),
{
    lemma_attrs_round_trip(vs);
}

/// The length field of a written attribute counts exactly the bytes
/// written for it.
pub proof fn lemma_attr_length_prefix<T: Serialize>(v: T)
    requires
        spec_attr(v) is Some,
    ensures
        u16_of_ne(spec_attr(v).unwrap().subrange(0, 2)) == spec_attr(v).unwrap().len(),
{
    lemma_raw_attr_of(v, seq![]);
    assert(spec_attr_bytes(v) + seq![] =~= spec_attr_bytes(v));
}

impl<T: Serialize> NetlinkPayloadRequest for T {
    open spec fn spec_serialize(&self) -> Option<Seq<u8>> {
        spec_attr(*self)
    }

    fn serialize(&self, buf: &mut Vec<u8>) -> (r: Result<(), LengthOverflow>) {
        serialize_attr(self, buf)
    }
}

impl<T: Deserialize> NetlinkPayloadResponse for T {
    type Error = ParseNetlinkAttributeFromBufferError;

    open spec fn spec_deserialize(buf: Seq<u8>) -> Option<T::Model> {
        spec_parse_attr::<T>(buf)
    }

    open spec fn spec_deserialize_error(buf: Seq<u8>, e: ParseNetlinkAttributeFromBufferError) -> bool {
        spec_attr_error::<T>(buf, e)
    }

    fn deserialize(buf: &[u8]) -> (r: Result<T, ParseNetlinkAttributeFromBufferError>) {
        deserialize_attr(buf)
    }
}

} // verus!
