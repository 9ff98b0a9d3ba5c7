//! Byte-level readers and writers: host-order integers, NUL-terminated
//! strings, 4-byte alignment and length-prefixed framing.
use vstd::endian::endianness;
use vstd::endian::Endian;
use vstd::prelude::*;
use vstd::slice::slice_subrange;
use vstd::utf8::decode_utf8;
use vstd::utf8::encode_scalar;
use vstd::utf8::encode_utf8;
use vstd::utf8::has_width_1_encoding;
use vstd::utf8::valid_utf8;

verus! {

/// Netlink's alignment unit, in bytes.
pub const NLA_ALIGNTO: usize = 4;

/// `n` rounded up to the next multiple of 4.
pub open spec fn spec_align4(n: int) -> int {
    (n + 3) / 4 * 4
}

/// Rounds a length up to the next multiple of 4 (`NLMSG_ALIGN`).
pub fn nlmsg_align(len: usize) -> (r: usize)
    requires
        len + 3 <= usize::MAX,
    ensures
        r == spec_align4(len as int),
{
    (len + 3) / NLA_ALIGNTO * NLA_ALIGNTO
}

/// The two bytes of `v` in the host's byte order.
pub open spec fn ne_u16(v: u16) -> Seq<u8> {
    match endianness() {
        Endian::Little => seq![(v % 256) as u8, (v / 256) as u8],
        Endian::Big => seq![(v / 256) as u8, (v % 256) as u8],
    }
}

/// The `u16` that two bytes in the host's byte order stand for.
pub open spec fn u16_of_ne(b: Seq<u8>) -> u16 {
    match endianness() {
        Endian::Little => (b[0] as int + 256 * b[1] as int) as u16,
        Endian::Big => (256 * b[0] as int + b[1] as int) as u16,
    }
}

/// The four bytes of `v` in the host's byte order.
pub open spec fn ne_u32(v: u32) -> Seq<u8> {
    let le = seq![
        (v % 256) as u8,
        ((v / 256) % 256) as u8,
        ((v / 65536) % 256) as u8,
        (v / 16777216) as u8,
    ];
    match endianness() {
        Endian::Little => le,
        Endian::Big => seq![le[3], le[2], le[1], le[0]],
    }
}

/// The `u32` that four bytes in the host's byte order stand for.
pub open spec fn u32_of_ne(b: Seq<u8>) -> u32 {
    let le = match endianness() {
        Endian::Little => b,
        Endian::Big => seq![b[3], b[2], b[1], b[0]],
    };
    (le[0] as int + 256 * (le[1] as int + 256 * (le[2] as int + 256 * le[3] as int))) as u32
}

/// Reading back the host-order bytes of a `u16` gives the value.
pub proof fn lemma_ne_u16_round_trip(v: u16)
    ensures
        ne_u16(v).len() == 2,
        u16_of_ne(ne_u16(v)) == v,
{
}

/// Reading back the host-order bytes of a `u32` gives the value.
pub proof fn lemma_ne_u32_round_trip(v: u32)
    ensures
        ne_u32(v).len() == 4,
        u32_of_ne(ne_u32(v)) == v,
{
    let le = seq![
        (v % 256) as u8,
        ((v / 256) % 256) as u8,
        ((v / 65536) % 256) as u8,
        (v / 16777216) as u8,
    ];
    assert(le[0] as int + 256 * (le[1] as int + 256 * (le[2] as int + 256 * le[3] as int))
        == v as int) by (nonlinear_arith)
        requires
            le[0] as int == v as int % 256,
            le[1] as int == (v as int / 256) % 256,
            le[2] as int == (v as int / 65536) % 256,
            le[3] as int == v as int / 16777216,
            0 <= v as int <= u32::MAX,
    ;
    match endianness() {
        Endian::Little => {},
        Endian::Big => {
            assert(seq![le[3], le[2], le[1], le[0]].len() == 4);
            let be = seq![le[3], le[2], le[1], le[0]];
            assert(seq![be[3], be[2], be[1], be[0]] =~= le);
        },
    }
}

/// Relies on `u16::to_ne_bytes`: the value's memory representation in the
/// host's byte order.
#[verifier::external_body]
fn u16_to_ne_bytes(v: u16) -> (r: [u8; 2])
    ensures
        r@ == ne_u16(v),
{
    v.to_ne_bytes()
}

/// Relies on `u16::from_ne_bytes`: the value whose host-order memory
/// representation is the given bytes.
#[verifier::external_body]
fn u16_from_ne_bytes(b: [u8; 2]) -> (r: u16)
    ensures
        r == u16_of_ne(b@),
{
    u16::from_ne_bytes(b)
}

/// Relies on `u32::to_ne_bytes`: the value's memory representation in the
/// host's byte order.
#[verifier::external_body]
fn u32_to_ne_bytes(v: u32) -> (r: [u8; 4])
    ensures
        r@ == ne_u32(v),
{
    v.to_ne_bytes()
}

/// Relies on `u32::from_ne_bytes`: the value whose host-order memory
/// representation is the given bytes.
#[verifier::external_body]
fn u32_from_ne_bytes(b: [u8; 4]) -> (r: u32)
    ensures
        r == u32_of_ne(b@),
{
    u32::from_ne_bytes(b)
}

/// Relies on `std::str::from_utf8`: succeeds exactly on valid UTF-8, and
/// then holds the characters the bytes encode.
#[verifier::external_body]
fn string_from_utf8(b: &[u8]) -> (r: Option<String>)
    ensures
        r is Some <==> valid_utf8(b@),
        r matches Some(s) ==> s@ == decode_utf8(b@),
{
    match std::str::from_utf8(b) {
        Ok(s) => Some(s.to_string()),
        Err(_) => None,
    }
}

/// Appends `v` in host byte order.
pub fn nla_put_u16(buf: &mut Vec<u8>, v: u16)
    ensures
        final(buf)@ == old(buf)@ + ne_u16(v),
{
    let b = u16_to_ne_bytes(v);
    buf.push(b[0]);
    buf.push(b[1]);
    assert(final(buf)@ =~= old(buf)@ + ne_u16(v));
}

/// Appends `v` in host byte order.
pub fn nla_put_u32(buf: &mut Vec<u8>, v: u32)
    ensures
        final(buf)@ == old(buf)@ + ne_u32(v),
{
    let b = u32_to_ne_bytes(v);
    buf.push(b[0]);
    buf.push(b[1]);
    buf.push(b[2]);
    buf.push(b[3]);
    assert(final(buf)@ =~= old(buf)@ + ne_u32(v));
}

/// The bytes of a NUL-terminated string: its UTF-8 encoding and one NUL.
pub open spec fn spec_put_string(s: Seq<char>) -> Seq<u8> {
    encode_utf8(s) + seq![0u8]
}

/// Appends the UTF-8 bytes of `s` followed by a single NUL.
pub fn nla_put_string(buf: &mut Vec<u8>, s: &String)
    ensures
        final(buf)@ == old(buf)@ + spec_put_string(s@),
{
    let bytes = s.as_str().as_bytes();
    buf.extend_from_slice(bytes);
    buf.push(0u8);
    assert(final(buf)@ =~= old(buf)@ + spec_put_string(s@));
}

/// A fixed-width integer could not be read from a buffer of the wrong size.
#[derive(Debug, PartialEq, Eq, Clone, Copy)]
pub enum ParseNlaIntError {
    ShortBuffer { have: usize, want: usize },
}

/// Reads a host-order `u16` from a payload of exactly two bytes.
pub fn nla_get_u16(buf: &[u8]) -> (r: Result<u16, ParseNlaIntError>)
    ensures
        buf@.len() == 2 ==> r == Ok::<u16, ParseNlaIntError>(u16_of_ne(buf@)),
        buf@.len() != 2 ==> r == Err::<u16, ParseNlaIntError>(
            ParseNlaIntError::ShortBuffer { have: buf@.len() as usize, want: 2 },
        ),
{
    if buf.len() != 2 {
        return Err(ParseNlaIntError::ShortBuffer { have: buf.len(), want: 2 });
    }
    let b: [u8; 2] = [buf[0], buf[1]];
    assert(b@ =~= buf@);
    Ok(u16_from_ne_bytes(b))
}

/// Reads a host-order `u32` from a payload of exactly four bytes.
pub fn nla_get_u32(buf: &[u8]) -> (r: Result<u32, ParseNlaIntError>)
    ensures
        buf@.len() == 4 ==> r == Ok::<u32, ParseNlaIntError>(u32_of_ne(buf@)),
        buf@.len() != 4 ==> r == Err::<u32, ParseNlaIntError>(
            ParseNlaIntError::ShortBuffer { have: buf@.len() as usize, want: 4 },
        ),
{
    if buf.len() != 4 {
        return Err(ParseNlaIntError::ShortBuffer { have: buf.len(), want: 4 });
    }
    let b: [u8; 4] = [buf[0], buf[1], buf[2], buf[3]];
    assert(b@ =~= buf@);
    Ok(u32_from_ne_bytes(b))
}

/// Reads the host-order `u16` at position `at` of `buf`.
pub fn get_u16_at(buf: &[u8], at: usize) -> (r: u16)
    requires
        at + 2 <= buf@.len(),
    ensures
        r == u16_of_ne(buf@.subrange(at as int, at + 2)),
{
    proof {
        assert(vstd::slice::spec_slice_len(buf) == buf@.len());
    }
    let b: [u8; 2] = [buf[at], buf[at + 1]];
    assert(b@ =~= buf@.subrange(at as int, at + 2));
    u16_from_ne_bytes(b)
}

/// Reads the host-order `u32` at position `at` of `buf`.
pub fn get_u32_at(buf: &[u8], at: usize) -> (r: u32)
    requires
        at + 4 <= buf@.len(),
    ensures
        r == u32_of_ne(buf@.subrange(at as int, at + 4)),
{
    proof {
        assert(vstd::slice::spec_slice_len(buf) == buf@.len());
    }
    let b: [u8; 4] = [buf[at], buf[at + 1], buf[at + 2], buf[at + 3]];
    assert(b@ =~= buf@.subrange(at as int, at + 4));
    u32_from_ne_bytes(b)
}

/// A NUL-terminated string could not be read.
#[derive(Debug, PartialEq, Eq, Clone, Copy)]
pub enum NlaGetStringError {
    MissingNul,
    InvalidUtf8,
}

/// No byte of `b` is NUL.
pub open spec fn nul_free(b: Seq<u8>) -> bool {
    forall|j: int| 0 <= j < b.len() ==> b[j] != 0
}

/// `i` is the position of the first NUL in `b`.
pub open spec fn is_first_nul(b: Seq<u8>, i: int) -> bool {
    0 <= i < b.len() && b[i] == 0 && nul_free(b.take(i))
}

/// What reading a NUL-terminated string from `b` gives: the characters
/// before the first NUL, which must be valid UTF-8.
pub open spec fn spec_get_string(b: Seq<u8>) -> Result<Seq<char>, NlaGetStringError> {
    if nul_free(b) {
        Err(NlaGetStringError::MissingNul)
    } else {
        let i = choose|i: int| is_first_nul(b, i);
        if valid_utf8(b.take(i)) {
            Ok(decode_utf8(b.take(i)))
        } else {
            Err(NlaGetStringError::InvalidUtf8)
        }
    }
}

proof fn lemma_first_nul_unique(b: Seq<u8>, i: int, k: int)
    requires
        is_first_nul(b, i),
        is_first_nul(b, k),
    ensures
        i == k,
{
    if i < k {
        assert(b.take(k)[i] == 0);
    } else if k < i {
        assert(b.take(i)[k] == 0);
    }
}

/// The chosen first NUL of a buffer that holds one.
pub proof fn lemma_first_nul_is_chosen(b: Seq<u8>, i: int)
    requires
        is_first_nul(b, i),
    ensures
        !nul_free(b),
        (choose|k: int| is_first_nul(b, k)) == i,
{
    let k = choose|k: int| is_first_nul(b, k);
    lemma_first_nul_unique(b, i, k);
}

/// Reads the bytes up to the first NUL as a UTF-8 string.
pub fn nla_get_string(buf: &[u8]) -> (r: Result<String, NlaGetStringError>)
    ensures
        match spec_get_string(buf@) {
            Ok(s) => r matches Ok(v) && v@ == s,
            Err(e) => r == Err::<String, NlaGetStringError>(e),
        },
{
    let mut i: usize = 0;
    while i < buf.len()
        invariant
            0 <= i <= buf@.len(),
            nul_free(buf@.take(i as int)),
        decreases buf@.len() - i,
    {
        if buf[i] == 0 {
            proof {
                lemma_first_nul_is_chosen(buf@, i as int);
            }
            let head = slice_subrange(buf, 0, i);
            assert(head@ =~= buf@.take(i as int));
            return match string_from_utf8(head) {
                Some(s) => Ok(s),
                None => Err(NlaGetStringError::InvalidUtf8),
            };
        }
        assert(buf@.take(i as int + 1) =~= buf@.take(i as int).push(buf@[i as int]));
        i = i + 1;
    }
    assert(buf@.take(i as int) =~= buf@);
    Err(NlaGetStringError::MissingNul)
}

/// A length prefix could not hold the number of bytes it frames.
#[derive(Debug, PartialEq, Eq, Clone, Copy)]
pub struct LengthOverflow {
    pub len: usize,
    pub max: usize,
}

/// `body` framed by a 2-byte host-order prefix that counts itself and the body.
pub open spec fn spec_prefixed_u16(body: Seq<u8>) -> Seq<u8> {
    ne_u16((body.len() + 2) as u16) + body
}

/// `body` framed by a 4-byte host-order prefix that counts itself and the body.
pub open spec fn spec_prefixed_u32(body: Seq<u8>) -> Seq<u8> {
    ne_u32((body.len() + 4) as u32) + body
}

/// Appends `body` behind a 2-byte length prefix holding the number of bytes
/// of prefix and body together. Fails, appending nothing, when that number
/// does not fit in a `u16`.
pub fn write_to_buf_with_prefixed_u16_len(buf: &mut Vec<u8>, body: &[u8]) -> (r: Result<
    (),
    LengthOverflow,
>)
    ensures
        body@.len() + 2 <= u16::MAX ==> r is Ok && final(buf)@ == old(buf)@ + spec_prefixed_u16(
            body@,
        ),
        body@.len() + 2 > u16::MAX ==> r is Err && final(buf)@ == old(buf)@,
{
    if body.len() > 65533 {
        return Err(LengthOverflow { len: body.len(), max: 65535 });
    }
    let len = (body.len() + 2) as u16;
    nla_put_u16(buf, len);
    buf.extend_from_slice(body);
    assert(final(buf)@ =~= old(buf)@ + spec_prefixed_u16(body@));
    Ok(())
}

/// Appends `body` behind a 4-byte length prefix holding the number of bytes
/// of prefix and body together. Fails, appending nothing, when that number
/// does not fit in a `u32`.
pub fn write_to_buf_with_prefixed_u32_len(buf: &mut Vec<u8>, body: &[u8]) -> (r: Result<
    (),
    LengthOverflow,
>)
    ensures
        body@.len() + 4 <= u32::MAX ==> r is Ok && final(buf)@ == old(buf)@ + spec_prefixed_u32(
            body@,
        ),
        body@.len() + 4 > u32::MAX ==> r is Err && final(buf)@ == old(buf)@,
{
    if body.len() > 4294967291 {
        return Err(LengthOverflow { len: body.len(), max: 4294967295 });
    }
    let len = (body.len() + 4) as u32;
    nla_put_u32(buf, len);
    buf.extend_from_slice(body);
    assert(final(buf)@ =~= old(buf)@ + spec_prefixed_u32(body@));
    Ok(())
}

proof fn lemma_marked_byte_nonzero(x: u8)
    by (bit_vector)
    ensures
        (0x80u8 | x) != 0,
        (0xC0u8 | x) != 0,
        (0xE0u8 | x) != 0,
        (0xF0u8 | x) != 0,
{
}

proof fn lemma_low_byte_nonzero(v: u32)
    by (bit_vector)
    requires
        1 <= v <= 0x7F,
    ensures
        ((v & 0x7F) as u8) != 0,
{
}

proof fn lemma_scalar_nul_free(c: char)
    requires
        c != '\0',
    ensures
        nul_free(encode_scalar(c as u32)),
{
    let v = c as u32;
    if has_width_1_encoding(v) {
        lemma_low_byte_nonzero(v);
    } else {
        lemma_marked_byte_nonzero(((v >> 6) & 0x1F) as u8);
        lemma_marked_byte_nonzero(((v >> 12) & 0x0F) as u8);
        lemma_marked_byte_nonzero(((v >> 18) & 0x7) as u8);
        lemma_marked_byte_nonzero((v & 0x3F) as u8);
        lemma_marked_byte_nonzero(((v >> 6) & 0x3F) as u8);
        lemma_marked_byte_nonzero(((v >> 12) & 0x3F) as u8);
    }
}

/// In UTF-8 only the NUL character is encoded with a zero byte.
pub proof fn lemma_encode_utf8_nul_free(s: Seq<char>)
    requires
        !s.contains('\0'),
    ensures
        nul_free(encode_utf8(s)),
    decreases s.len(),
{
    if s.len() > 0 {
        assert(s[0] != '\0');
        lemma_scalar_nul_free(s[0]);
        assert(!s.drop_first().contains('\0')) by {
            if s.drop_first().contains('\0') {
                let k = choose|k: int| 0 <= k < s.drop_first().len() && s.drop_first()[k] == '\0';
                assert(s[k + 1] == '\0');
            }
        }
        lemma_encode_utf8_nul_free(s.drop_first());
        let a = encode_scalar(s[0] as u32);
        let b = encode_utf8(s.drop_first());
        assert forall|j: int| 0 <= j < (a + b).len() implies (a + b)[j] != 0 by {
            if j < a.len() {
                assert((a + b)[j] == a[j]);
            } else {
                assert((a + b)[j] == b[j - a.len()]);
            }
        }
    }
}

} // verus!
