//! Wire format: the envelope that wraps every Backend <-> UI message, and the
//! primitive field codecs (little-endian integers, length-prefixed UTF-8
//! strings, optional chars) that the payload codecs are built from.
//!
//! ```text
//! | version (u8) | type_tag (u8) | payload_len (u16 LE) | payload |
//! ```

use vstd::prelude::*;
use vstd::utf8::*;

use crate::error::ProtocolError;

verus! {

broadcast use vstd::utf8::group_utf8_lib;

/// Protocol version byte.
pub const PROTOCOL_VERSION: u8 = 0x01;

// ============================================================================
// Byte-level model
// ============================================================================

/// The two little-endian bytes of a `u16`.
pub open spec fn le16_bytes(v: u16) -> Seq<u8> {
    seq![(v % 256) as u8, (v / 256) as u8]
}

/// The four little-endian bytes of a `u32`.
pub open spec fn le32_bytes(v: u32) -> Seq<u8> {
    seq![
        (v % 256) as u8,
        ((v / 256) % 256) as u8,
        ((v / 65536) % 256) as u8,
        (v / 16777216) as u8,
    ]
}

/// The `u16` whose little-endian bytes are `b0, b1`.
pub open spec fn le16_value(b0: u8, b1: u8) -> u16 {
    (b0 as int + 256 * (b1 as int)) as u16
}

/// The `u32` whose little-endian bytes are `b0..b3`.
pub open spec fn le32_value(b0: u8, b1: u8, b2: u8, b3: u8) -> u32 {
    (b0 as int + 256 * (b1 as int) + 65536 * (b2 as int) + 16777216 * (b3 as int)) as u32
}

/// A length field as the encoder writes it: the length taken modulo 2^16.
pub open spec fn len16(n: int) -> u16 {
    (n % 65536) as u16
}

/// The bytes of an envelope with the given header fields and payload.
pub open spec fn envelope_bytes(version: u8, type_tag: u8, payload: Seq<u8>) -> Seq<u8> {
    seq![version, type_tag] + le16_bytes(len16(payload.len() as int)) + payload
}

/// The bytes of a length-prefixed string with the given characters.
pub open spec fn string_bytes(s: Seq<char>) -> Seq<u8> {
    le16_bytes(len16(encode_utf8(s).len() as int)) + encode_utf8(s)
}

/// The bytes of an optional character: `0` for none, `1` and the code point
/// (u32 LE) for some.
pub open spec fn optional_char_bytes(c: Option<char>) -> Seq<u8> {
    match c {
        None => seq![0u8],
        Some(ch) => seq![1u8] + le32_bytes(ch as u32),
    }
}

// ============================================================================
// Decoder model: each returns the decoded value (or error) and the cursor
// position after the call.
// ============================================================================

/// The envelope a byte sequence decodes to, as (version, type_tag, payload).
pub open spec fn decode_envelope_spec(data: Seq<u8>) -> Result<(u8, u8, Seq<u8>), ProtocolError> {
    if data.len() < 4 {
        Err(ProtocolError::TooShort)
    } else if data[0] != PROTOCOL_VERSION {
        Err(ProtocolError::UnknownVersion(data[0]))
    } else {
        let n = le16_value(data[2], data[3]) as int;
        if data.len() < 4 + n {
            Err(
                ProtocolError::PayloadOverflow {
                    declared: n as usize,
                    available: (data.len() - 4) as usize,
                },
            )
        } else {
            Ok((data[0], data[1], data.subrange(4, 4 + n)))
        }
    }
}

pub open spec fn decode_u8_spec(data: Seq<u8>, c: int) -> (Result<u8, ProtocolError>, int) {
    if c >= data.len() {
        (Err(ProtocolError::TooShort), c)
    } else {
        (Ok(data[c]), c + 1)
    }
}

pub open spec fn decode_u16_spec(data: Seq<u8>, c: int) -> (Result<u16, ProtocolError>, int) {
    if c + 2 > data.len() {
        (Err(ProtocolError::TooShort), c)
    } else {
        (Ok(le16_value(data[c], data[c + 1])), c + 2)
    }
}

pub open spec fn decode_u32_spec(data: Seq<u8>, c: int) -> (Result<u32, ProtocolError>, int) {
    if c + 4 > data.len() {
        (Err(ProtocolError::TooShort), c)
    } else {
        (Ok(le32_value(data[c], data[c + 1], data[c + 2], data[c + 3])), c + 4)
    }
}

/// Decoding a length-prefixed string. On a string overflow or invalid UTF-8
/// the cursor has already moved past the length prefix (resp. the bytes).
pub open spec fn decode_string_spec(data: Seq<u8>, c: int) -> (
    Result<Seq<char>, ProtocolError>,
    int,
) {
    if c + 2 > data.len() {
        (Err(ProtocolError::TooShort), c)
    } else {
        let n = le16_value(data[c], data[c + 1]) as int;
        if c + 2 + n > data.len() {
            (
                Err(
                    ProtocolError::StringOverflow {
                        declared: n as usize,
                        available: (data.len() - (c + 2)) as usize,
                    },
                ),
                c + 2,
            )
        } else {
            let bytes = data.subrange(c + 2, c + 2 + n);
            if valid_utf8(bytes) {
                (Ok(decode_utf8(bytes)), c + 2 + n)
            } else {
                (Err(ProtocolError::InvalidUtf8), c + 2 + n)
            }
        }
    }
}

/// The character with the given code point, if it is a Unicode scalar value.
pub open spec fn char_from_u32_spec(code: u32) -> Option<char> {
    if is_scalar(code) {
        Some(code as char)
    } else {
        None
    }
}

pub open spec fn decode_optional_char_spec(data: Seq<u8>, c: int) -> (
    Result<Option<char>, ProtocolError>,
    int,
) {
    let (r, c1) = decode_u8_spec(data, c);
    match r {
        Err(e) => (Err(e), c1),
        Ok(flag) => if flag == 0 {
            (Ok(None), c1)
        } else {
            let (r2, c2) = decode_u32_spec(data, c1);
            match r2 {
                Err(e) => (Err(e), c2),
                Ok(code) => (Ok(char_from_u32_spec(code)), c2),
            }
        },
    }
}

/// The view of a decoded string result.
pub open spec fn string_result_view(r: Result<String, ProtocolError>) -> Result<
    Seq<char>,
    ProtocolError,
> {
    match r {
        Ok(s) => Ok(s@),
        Err(e) => Err(e),
    }
}

// ============================================================================
// Trusted std calls
// ============================================================================

/// Calls `String::from_utf8`, which std documents as returning the string
/// holding exactly these bytes when they are valid UTF-8, and an error
/// otherwise.
#[verifier::external_body]
pub(crate) fn string_from_utf8(bytes: Vec<u8>) -> (res: Option<String>)
    ensures
        res is Some <==> valid_utf8(bytes@),
        res matches Some(s) ==> s@ == decode_utf8(bytes@),
{
    String::from_utf8(bytes).ok()
}

/// Calls `char::from_u32`, which std documents as returning the character
/// with that code point exactly when it is a Unicode scalar value.
#[verifier::external_body]
fn char_from_u32(code: u32) -> (res: Option<char>)
    ensures
        res == char_from_u32_spec(code),
{
    char::from_u32(code)
}

// ============================================================================
// Byte helpers
// ============================================================================

/// Appends `src` to `dst`.
pub fn append_bytes(dst: &mut Vec<u8>, src: &[u8])
    ensures
        final(dst)@ == old(dst)@ + src@,
{
    let n = src.len();
    let mut i: usize = 0;
    while i < n
        invariant
            n == src@.len(),
            i <= n,
            dst@ == old(dst)@ + src@.subrange(0, i as int),
        decreases n - i,
    {
        dst.push(src[i]);
        i = i + 1;
        assert(dst@ =~= old(dst)@ + src@.subrange(0, i as int));
    }
    assert(src@.subrange(0, n as int) =~= src@);
}

/// Appends the little-endian bytes of `v`.
pub fn push_u16_le(dst: &mut Vec<u8>, v: u16)
    ensures
        final(dst)@ == old(dst)@ + le16_bytes(v),
{
    dst.push((v % 256) as u8);
    dst.push((v / 256) as u8);
    assert(dst@ =~= old(dst)@ + le16_bytes(v));
}

/// Appends the little-endian bytes of `v`.
pub fn push_u32_le(dst: &mut Vec<u8>, v: u32)
    ensures
        final(dst)@ == old(dst)@ + le32_bytes(v),
{
    dst.push((v % 256) as u8);
    dst.push(((v / 256) % 256) as u8);
    dst.push(((v / 65536) % 256) as u8);
    dst.push((v / 16777216) as u8);
    assert(dst@ =~= old(dst)@ + le32_bytes(v));
}

/// Copies `data[start..end]` into a new vector.
pub fn copy_range(data: &[u8], start: usize, end: usize) -> (r: Vec<u8>)
    requires
        start <= end <= data@.len(),
    ensures
        r@ == data@.subrange(start as int, end as int),
{
    let mut r: Vec<u8> = Vec::new();
    let mut i = start;
    while i < end
        invariant
            start <= i <= end <= data@.len(),
            r@ == data@.subrange(start as int, i as int),
        decreases end - i,
    {
        r.push(data[i]);
        i = i + 1;
        assert(r@ =~= data@.subrange(start as int, i as int));
    }
    r
}

// ============================================================================
// Envelope
// ============================================================================

/// Message envelope (header + payload).
#[derive(Clone, Debug)]
pub struct Envelope {
    /// Protocol version
    pub version: u8,
    /// Type tag identifying the payload type
    pub type_tag: u8,
    /// Payload data
    pub payload: Vec<u8>,
}

impl Envelope {
    /// Create a new envelope with the current protocol version.
    pub fn new(type_tag: u8, payload: Vec<u8>) -> (e: Self)
        ensures
            e.version == PROTOCOL_VERSION,
            e.type_tag == type_tag,
            e.payload@ == payload@,
    {
        Envelope { version: PROTOCOL_VERSION, type_tag, payload }
    }
}

/// Encode an envelope to bytes. The length field holds the payload length
/// modulo 2^16.
pub fn encode_envelope(envelope: &Envelope) -> (bytes: Vec<u8>)
    ensures
        bytes@ == envelope_bytes(envelope.version, envelope.type_tag, envelope.payload@),
{
    let len = envelope.payload.len();
    let len16: u16 = (len % 65536) as u16;
    let mut bytes: Vec<u8> = Vec::new();
    bytes.push(envelope.version);
    bytes.push(envelope.type_tag);
    push_u16_le(&mut bytes, len16);
    append_bytes(&mut bytes, envelope.payload.as_slice());
    assert(bytes@ =~= envelope_bytes(envelope.version, envelope.type_tag, envelope.payload@));
    bytes
}

/// Decode an envelope from bytes.
pub fn decode_envelope(data: &[u8]) -> (res: Result<Envelope, ProtocolError>)
    ensures
        match (res, decode_envelope_spec(data@)) {
            (Ok(e), Ok((v, t, p))) => e.version == v && e.type_tag == t && e.payload@ == p,
            (Err(e1), Err(e2)) => e1 == e2,
            _ => false,
        },
{
    if data.len() < 4 {
        return Err(ProtocolError::TooShort);
    }
    let version = data[0];
    if version != PROTOCOL_VERSION {
        return Err(ProtocolError::UnknownVersion(version));
    }
    let type_tag = data[1];
    let payload_len: usize = (data[2] as usize) + 256 * (data[3] as usize);
    if data.len() - 4 < payload_len {
        return Err(
            ProtocolError::PayloadOverflow { declared: payload_len, available: data.len() - 4 },
        );
    }
    let payload = copy_range(data, 4, 4 + payload_len);
    Ok(Envelope { version, type_tag, payload })
}

// ============================================================================
// Field codecs
// ============================================================================

/// Encode a string as a u16 little-endian byte length followed by its UTF-8
/// bytes. The length field holds the byte length modulo 2^16.
pub fn encode_string(s: &str) -> (r: Vec<u8>)
    ensures
        r@ == string_bytes(s@),
{
    let bytes = s.as_bytes();
    let len16: u16 = (bytes.len() % 65536) as u16;
    let mut r: Vec<u8> = Vec::new();
    push_u16_le(&mut r, len16);
    append_bytes(&mut r, bytes);
    r
}

/// Decode a length-prefixed string at `*cursor`, advancing the cursor.
pub fn decode_string(data: &[u8], cursor: &mut usize) -> (res: Result<String, ProtocolError>)
    ensures
        (string_result_view(res), *final(cursor) as int) == decode_string_spec(
            data@,
            *old(cursor) as int,
        ),
{
    let c = *cursor;
    if c > data.len() || data.len() - c < 2 {
        return Err(ProtocolError::TooShort);
    }
    let len: usize = (data[c] as usize) + 256 * (data[c + 1] as usize);
    *cursor = c + 2;
    let start = c + 2;
    if data.len() - start < len {
        return Err(ProtocolError::StringOverflow { declared: len, available: data.len() - start });
    }
    let bytes = copy_range(data, start, start + len);
    *cursor = start + len;
    match string_from_utf8(bytes) {
        Some(s) => Ok(s),
        None => Err(ProtocolError::InvalidUtf8),
    }
}

/// Decode a u8 at `*cursor`, advancing the cursor.
pub fn decode_u8(data: &[u8], cursor: &mut usize) -> (res: Result<u8, ProtocolError>)
    ensures
        (res, *final(cursor) as int) == decode_u8_spec(data@, *old(cursor) as int),
{
    if *cursor >= data.len() {
        return Err(ProtocolError::TooShort);
    }
    let value = data[*cursor];
    *cursor = *cursor + 1;
    Ok(value)
}

/// Decode a little-endian u16 at `*cursor`, advancing the cursor.
pub fn decode_u16(data: &[u8], cursor: &mut usize) -> (res: Result<u16, ProtocolError>)
    ensures
        (res, *final(cursor) as int) == decode_u16_spec(data@, *old(cursor) as int),
{
    let c = *cursor;
    if c > data.len() || data.len() - c < 2 {
        return Err(ProtocolError::TooShort);
    }
    let value: u16 = (data[c] as u16) + 256 * (data[c + 1] as u16);
    *cursor = c + 2;
    Ok(value)
}

/// Decode a little-endian u32 at `*cursor`, advancing the cursor.
pub fn decode_u32(data: &[u8], cursor: &mut usize) -> (res: Result<u32, ProtocolError>)
    ensures
        (res, *final(cursor) as int) == decode_u32_spec(data@, *old(cursor) as int),
{
    let c = *cursor;
    if c > data.len() || data.len() - c < 4 {
        return Err(ProtocolError::TooShort);
    }
    let value: u32 = (data[c] as u32) + 256 * (data[c + 1] as u32) + 65536 * (data[c + 2] as u32)
        + 16777216 * (data[c + 3] as u32);
    *cursor = c + 4;
    Ok(value)
}

/// Decode an optional char (0x00 = None, 0x01.. + u32 = the char with that
/// code point, or None when it is not a Unicode scalar value).
pub fn decode_optional_char(data: &[u8], cursor: &mut usize) -> (res: Result<
    Option<char>,
    ProtocolError,
>)
    ensures
        (res, *final(cursor) as int) == decode_optional_char_spec(data@, *old(cursor) as int),
{
    let has_value = match decode_u8(data, cursor) {
        Ok(v) => v,
        Err(e) => return Err(e),
    };
    if has_value == 0 {
        Ok(None)
    } else {
        let code = match decode_u32(data, cursor) {
            Ok(v) => v,
            Err(e) => return Err(e),
        };
        Ok(char_from_u32(code))
    }
}

/// Encode an optional char.
pub fn encode_optional_char(c: Option<char>) -> (r: Vec<u8>)
    ensures
        r@ == optional_char_bytes(c),
{
    match c {
        None => {
            let mut r: Vec<u8> = Vec::new();
            r.push(0u8);
            assert(r@ =~= optional_char_bytes(c));
            r
        },
        Some(ch) => {
            let mut r: Vec<u8> = Vec::new();
            r.push(1u8);
            push_u32_le(&mut r, ch as u32);
            assert(r@ =~= optional_char_bytes(c));
            r
        },
    }
}


// ============================================================================
// Laws: every field codec reads back what its encoder wrote, whatever bytes
// precede or follow it.
// ============================================================================

/// The little-endian bytes of a `u16` read back as that `u16`.
pub proof fn lemma_le16_roundtrip(v: u16)
    ensures
        le16_value(le16_bytes(v)[0], le16_bytes(v)[1]) == v,
{
}

/// The little-endian bytes of a `u32` read back as that `u32`.
pub proof fn lemma_le32_roundtrip(v: u32)
    ensures
        le32_value(le32_bytes(v)[0], le32_bytes(v)[1], le32_bytes(v)[2], le32_bytes(v)[3]) == v,
{
    let b = le32_bytes(v);
    assert(b[0] as int + 256 * (b[1] as int) + 65536 * (b[2] as int) + 16777216 * (b[3] as int)
        == v) by (nonlinear_arith)
        requires
            b[0] == (v % 256) as u8,
            b[1] == ((v / 256) % 256) as u8,
            b[2] == ((v / 65536) % 256) as u8,
            b[3] == (v / 16777216) as u8,
    ;
}

/// An envelope whose payload is shorter than 2^16 bytes decodes to the
/// header and payload it was encoded from; bytes after it are ignored.
pub proof fn lemma_envelope_roundtrip(type_tag: u8, payload: Seq<u8>, rest: Seq<u8>)
    requires
        payload.len() < 65536,
    ensures
        decode_envelope_spec(envelope_bytes(PROTOCOL_VERSION, type_tag, payload) + rest) == Ok::<
            (u8, u8, Seq<u8>),
            ProtocolError,
        >((PROTOCOL_VERSION, type_tag, payload)),
{
    let data = envelope_bytes(PROTOCOL_VERSION, type_tag, payload) + rest;
    lemma_le16_roundtrip(len16(payload.len() as int));
    assert(data[2] == le16_bytes(len16(payload.len() as int))[0]);
    assert(data[3] == le16_bytes(len16(payload.len() as int))[1]);
    assert(data.subrange(4, 4 + payload.len() as int) =~= payload);
}

/// A u8 reads back at the position it was written to.
pub proof fn lemma_u8_roundtrip(prefix: Seq<u8>, v: u8, rest: Seq<u8>)
    ensures
        decode_u8_spec(prefix + seq![v] + rest, prefix.len() as int) == (
            Ok::<u8, ProtocolError>(v),
            prefix.len() + 1int,
        ),
{
    assert((prefix + seq![v] + rest)[prefix.len() as int] == v);
}

/// A u16 reads back at the position it was written to.
pub proof fn lemma_u16_roundtrip(prefix: Seq<u8>, v: u16, rest: Seq<u8>)
    ensures
        decode_u16_spec(prefix + le16_bytes(v) + rest, prefix.len() as int) == (
            Ok::<u16, ProtocolError>(v),
            prefix.len() + 2int,
        ),
{
    let data = prefix + le16_bytes(v) + rest;
    lemma_le16_roundtrip(v);
    assert(data[prefix.len() as int] == le16_bytes(v)[0]);
    assert(data[prefix.len() as int + 1] == le16_bytes(v)[1]);
}

/// A u32 reads back at the position it was written to.
pub proof fn lemma_u32_roundtrip(prefix: Seq<u8>, v: u32, rest: Seq<u8>)
    ensures
        decode_u32_spec(prefix + le32_bytes(v) + rest, prefix.len() as int) == (
            Ok::<u32, ProtocolError>(v),
            prefix.len() + 4int,
        ),
{
    let data = prefix + le32_bytes(v) + rest;
    lemma_le32_roundtrip(v);
    assert(data[prefix.len() as int] == le32_bytes(v)[0]);
    assert(data[prefix.len() as int + 1] == le32_bytes(v)[1]);
    assert(data[prefix.len() as int + 2] == le32_bytes(v)[2]);
    assert(data[prefix.len() as int + 3] == le32_bytes(v)[3]);
}

/// A string whose UTF-8 encoding is shorter than 2^16 bytes reads back at the
/// position it was written to.
pub proof fn lemma_string_roundtrip(prefix: Seq<u8>, s: Seq<char>, rest: Seq<u8>)
    requires
        encode_utf8(s).len() < 65536,
    ensures
        decode_string_spec(prefix + string_bytes(s) + rest, prefix.len() as int) == (
            Ok::<Seq<char>, ProtocolError>(s),
            prefix.len() + string_bytes(s).len() as int,
        ),
        string_bytes(s).len() == 2 + encode_utf8(s).len(),
{
    let e = encode_utf8(s);
    let n = len16(e.len() as int);
    let data = prefix + string_bytes(s) + rest;
    lemma_le16_roundtrip(n);
    let c = prefix.len() as int;
    assert(data[c] == le16_bytes(n)[0]);
    assert(data[c + 1] == le16_bytes(n)[1]);
    assert(data.subrange(c + 2, c + 2 + e.len()) =~= e);
}

/// An optional character reads back at the position it was written to.
pub proof fn lemma_optional_char_roundtrip(prefix: Seq<u8>, c: Option<char>, rest: Seq<u8>)
    ensures
        decode_optional_char_spec(prefix + optional_char_bytes(c) + rest, prefix.len() as int)
            == (Ok::<Option<char>, ProtocolError>(c), prefix.len() + optional_char_bytes(c).len() as int),
{
    let data = prefix + optional_char_bytes(c) + rest;
    match c {
        None => {
            assert(data[prefix.len() as int] == 0);
        },
        Some(ch) => {
            assert(data[prefix.len() as int] == 1);
            let p1 = prefix + seq![1u8];
            assert(data =~= p1 + le32_bytes(ch as u32) + rest);
            lemma_u32_roundtrip(p1, ch as u32, rest);
            char_is_scalar(ch);
            char_u32_cast(ch, ch as u32);
        },
    }
}

} // verus!
