//! Records of typed fields: the payload layout shared by the state codecs.
//! A payload is a type tag followed by a sequence of fields, each a byte, a
//! little-endian u32 or a length-prefixed string.

use vstd::prelude::*;
use vstd::utf8::*;

use crate::error::ProtocolError;
use crate::wire::{
    append_bytes, encode_string, push_u32_le,
    decode_string, decode_string_spec, decode_u32, decode_u32_spec, decode_u8, decode_u8_spec,
    le32_bytes, lemma_string_roundtrip, lemma_u32_roundtrip, lemma_u8_roundtrip, string_bytes,
};

verus! {

/// The kind of a field.
#[derive(Clone, Copy, Debug, PartialEq, Eq)]
pub enum FieldKind {
    Byte,
    Word,
    Text,
}

/// The value of a field.
pub enum Field {
    Byte(u8),
    Word(u32),
    Text(Seq<char>),
}

/// A decoded field.
pub enum FieldValue {
    Byte(u8),
    Word(u32),
    Text(String),
}

impl View for FieldValue {
    type V = Field;

    open spec fn view(&self) -> Field {
        match self {
            FieldValue::Byte(b) => Field::Byte(*b),
            FieldValue::Word(w) => Field::Word(*w),
            FieldValue::Text(s) => Field::Text(s@),
        }
    }
}

pub open spec fn kind_of(f: Field) -> FieldKind {
    match f {
        Field::Byte(_) => FieldKind::Byte,
        Field::Word(_) => FieldKind::Word,
        Field::Text(_) => FieldKind::Text,
    }
}

pub open spec fn kinds_of(fs: Seq<Field>) -> Seq<FieldKind> {
    fs.map_values(|f: Field| kind_of(f))
}

/// The bytes of one field.
pub open spec fn field_bytes(f: Field) -> Seq<u8> {
    match f {
        Field::Byte(b) => seq![b],
        Field::Word(w) => le32_bytes(w),
        Field::Text(s) => string_bytes(s),
    }
}

/// The bytes of a sequence of fields, in order.
pub open spec fn fields_bytes(fs: Seq<Field>) -> Seq<u8>
    decreases fs.len(),
{
    if fs.len() == 0 {
        seq![]
    } else {
        field_bytes(fs[0]) + fields_bytes(fs.drop_first())
    }
}

/// Whether every text field encodes to fewer than 2^16 bytes.
pub open spec fn fields_fit(fs: Seq<Field>) -> bool {
    forall|i: int|
        0 <= i < fs.len() ==> (#[trigger] fs[i] matches Field::Text(s) ==> encode_utf8(s).len()
            < 65536)
}

/// Decoding one field of the given kind at cursor `c`.
pub open spec fn decode_field_spec(data: Seq<u8>, c: int, k: FieldKind) -> (
    Result<Field, ProtocolError>,
    int,
) {
    match k {
        FieldKind::Byte => {
            let (r, c1) = decode_u8_spec(data, c);
            (
                match r {
                    Ok(b) => Ok(Field::Byte(b)),
                    Err(e) => Err(e),
                },
                c1,
            )
        },
        FieldKind::Word => {
            let (r, c1) = decode_u32_spec(data, c);
            (
                match r {
                    Ok(w) => Ok(Field::Word(w)),
                    Err(e) => Err(e),
                },
                c1,
            )
        },
        FieldKind::Text => {
            let (r, c1) = decode_string_spec(data, c);
            (
                match r {
                    Ok(s) => Ok(Field::Text(s)),
                    Err(e) => Err(e),
                },
                c1,
            )
        },
    }
}

/// Decoding fields of the given kinds, in order, starting at cursor `c`; the
/// first error stops the decoding.
pub open spec fn decode_fields_spec(data: Seq<u8>, c: int, ks: Seq<FieldKind>) -> (
    Result<Seq<Field>, ProtocolError>,
    int,
)
    decreases ks.len(),
{
    if ks.len() == 0 {
        (Ok(seq![]), c)
    } else {
        let (r, c1) = decode_field_spec(data, c, ks[0]);
        match r {
            Err(e) => (Err(e), c1),
            Ok(f) => {
                let (r2, c2) = decode_fields_spec(data, c1, ks.drop_first());
                match r2 {
                    Err(e) => (Err(e), c2),
                    Ok(fs) => (Ok(seq![f] + fs), c2),
                }
            },
        }
    }
}

/// Prepends already-decoded fields to the outcome of decoding the rest.
pub open spec fn prepend_fields(
    done: Seq<Field>,
    r: (Result<Seq<Field>, ProtocolError>, int),
) -> (Result<Seq<Field>, ProtocolError>, int) {
    match r.0 {
        Ok(fs) => (Ok(done + fs), r.1),
        Err(e) => (Err(e), r.1),
    }
}

pub open spec fn fields_view(v: Seq<FieldValue>) -> Seq<Field> {
    v.map_values(|f: FieldValue| f@)
}

pub open spec fn fields_result_view(r: Result<Vec<FieldValue>, ProtocolError>) -> Result<
    Seq<Field>,
    ProtocolError,
> {
    match r {
        Ok(v) => Ok(fields_view(v@)),
        Err(e) => Err(e),
    }
}

/// Decoded fields have the kinds asked for.
pub proof fn lemma_decode_fields_kinds(data: Seq<u8>, c: int, ks: Seq<FieldKind>)
    ensures
        decode_fields_spec(data, c, ks).0 matches Ok(fs) ==> fs.len() == ks.len() && (forall|i: int|
            0 <= i < ks.len() ==> kind_of(#[trigger] fs[i]) == ks[i]),
    decreases ks.len(),
{
    if ks.len() > 0 {
        let (r, c1) = decode_field_spec(data, c, ks[0]);
        lemma_decode_fields_kinds(data, c1, ks.drop_first());
        if let Ok(fs) = decode_fields_spec(data, c, ks).0 {
            let f = r->Ok_0;
            let rest = decode_fields_spec(data, c1, ks.drop_first()).0->Ok_0;
            assert(fs == seq![f] + rest);
            assert forall|i: int| 0 <= i < ks.len() implies kind_of(#[trigger] fs[i]) == ks[i] by {
                if i > 0 {
                    assert(fs[i] == rest[i - 1]);
                }
            }
        }
    }
}

/// Fields read back at the position they were written to, whatever precedes
/// or follows them.
pub proof fn lemma_fields_roundtrip(prefix: Seq<u8>, fs: Seq<Field>, rest: Seq<u8>)
    requires
        fields_fit(fs),
    ensures
        decode_fields_spec(prefix + fields_bytes(fs) + rest, prefix.len() as int, kinds_of(fs)) == (
            Ok::<Seq<Field>, ProtocolError>(fs),
            prefix.len() + fields_bytes(fs).len() as int,
        ),
    decreases fs.len(),
{
    let data = prefix + fields_bytes(fs) + rest;
    if fs.len() == 0 {
        assert(kinds_of(fs) =~= seq![]);
        assert(fs =~= seq![]);
    } else {
        let f = fs[0];
        let tail = fs.drop_first();
        let p1 = prefix + field_bytes(f);
        assert(fields_fit(tail)) by {
            assert forall|i: int| 0 <= i < tail.len() implies (#[trigger] tail[i] matches Field::Text(
                s,
            ) ==> encode_utf8(s).len() < 65536) by {
                assert(tail[i] == fs[i + 1]);
            }
        }
        assert(data =~= prefix + field_bytes(f) + (fields_bytes(tail) + rest));
        assert(data =~= p1 + fields_bytes(tail) + rest);
        match f {
            Field::Byte(b) => {
                lemma_u8_roundtrip(prefix, b, fields_bytes(tail) + rest);
            },
            Field::Word(w) => {
                lemma_u32_roundtrip(prefix, w, fields_bytes(tail) + rest);
            },
            Field::Text(s) => {
                assert(fs[0] matches Field::Text(s));
                lemma_string_roundtrip(prefix, s, fields_bytes(tail) + rest);
            },
        }
        assert(kinds_of(fs)[0] == kind_of(f));
        assert(decode_field_spec(data, prefix.len() as int, kind_of(f)) == (
            Ok::<Field, ProtocolError>(f),
            p1.len() as int,
        ));
        lemma_fields_roundtrip(p1, tail, rest);
        assert(kinds_of(fs).drop_first() =~= kinds_of(tail));
        assert(seq![f] + tail =~= fs);
        assert(fields_bytes(fs) == field_bytes(f) + fields_bytes(tail));
        assert(kinds_of(fs).len() > 0);
        let ks = kinds_of(fs);
        assert(decode_fields_spec(data, p1.len() as int, ks.drop_first()) == (
            Ok::<Seq<Field>, ProtocolError>(tail),
            p1.len() + fields_bytes(tail).len() as int,
        ));
    }
}

/// Decodes fields of the given kinds, in order, starting at `*cursor`.
pub fn decode_fields(data: &[u8], cursor: &mut usize, kinds: &[FieldKind]) -> (res: Result<
    Vec<FieldValue>,
    ProtocolError,
>)
    ensures
        (fields_result_view(res), *final(cursor) as int) == decode_fields_spec(
            data@,
            *old(cursor) as int,
            kinds@,
        ),
{
    let mut out: Vec<FieldValue> = Vec::new();
    let n = kinds.len();
    let mut i: usize = 0;
    let ghost c0 = *cursor as int;
    assert(kinds@.skip(0) =~= kinds@);
    proof {
        let r = decode_fields_spec(data@, c0, kinds@);
        if let Ok(fs) = r.0 {
            assert(fields_view(out@) + fs =~= fs);
        }
    }
    while i < n
        invariant
            n == kinds@.len(),
            i <= n,
            c0 == *old(cursor) as int,
            fields_view(out@).len() == i,
            decode_fields_spec(data@, c0, kinds@) == prepend_fields(
                fields_view(out@),
                decode_fields_spec(data@, *cursor as int, kinds@.skip(i as int)),
            ),
        decreases n - i,
    {
        let ghost c = *cursor as int;
        let ghost ks = kinds@.skip(i as int);
        assert(ks[0] == kinds@[i as int]);
        assert(ks.drop_first() =~= kinds@.skip(i + 1));
        let r: Result<FieldValue, ProtocolError> = match kinds[i] {
            FieldKind::Byte => match decode_u8(data, cursor) {
                Ok(b) => Ok(FieldValue::Byte(b)),
                Err(e) => Err(e),
            },
            FieldKind::Word => match decode_u32(data, cursor) {
                Ok(w) => Ok(FieldValue::Word(w)),
                Err(e) => Err(e),
            },
            FieldKind::Text => match decode_string(data, cursor) {
                Ok(s) => Ok(FieldValue::Text(s)),
                Err(e) => Err(e),
            },
        };
        let f = match r {
            Ok(f) => f,
            Err(e) => {
                assert(decode_field_spec(data@, c, ks[0]) == (
                    Err::<Field, ProtocolError>(e),
                    *cursor as int,
                ));
                assert(decode_fields_spec(data@, c, ks) == (
                    Err::<Seq<Field>, ProtocolError>(e),
                    *cursor as int,
                ));
                assert(decode_fields_spec(data@, c0, kinds@) == (
                    Err::<Seq<Field>, ProtocolError>(e),
                    *cursor as int,
                ));
                return Err(e);
            },
        };
        assert(decode_field_spec(data@, c, ks[0]) == (Ok::<Field, ProtocolError>(f@), *cursor as int));
        let ghost before = fields_view(out@);
        out.push(f);
        assert(fields_view(out@) =~= before + seq![f@]);
        proof {
            let r = decode_fields_spec(data@, *cursor as int, kinds@.skip(i + 1));
            match r.0 {
                Ok(fs) => {
                    assert(before + (seq![f@] + fs) =~= (before + seq![f@]) + fs);
                },
                Err(_) => {},
            }
        }
        i = i + 1;
    }
    assert(kinds@.skip(n as int) =~= seq![]);
    assert(fields_view(out@) + seq![] =~= fields_view(out@));
    Ok(out)
}

/// Appends a byte field.
pub fn put_byte(out: &mut Vec<u8>, b: u8)
    ensures
        final(out)@ == old(out)@ + field_bytes(Field::Byte(b)),
{
    out.push(b);
    assert(out@ =~= old(out)@ + field_bytes(Field::Byte(b)));
}

/// Appends a u32 field.
pub fn put_word(out: &mut Vec<u8>, w: u32)
    ensures
        final(out)@ == old(out)@ + field_bytes(Field::Word(w)),
{
    push_u32_le(out, w);
}

/// Appends a string field.
pub fn put_text(out: &mut Vec<u8>, s: &str)
    ensures
        final(out)@ == old(out)@ + field_bytes(Field::Text(s@)),
{
    let e = encode_string(s);
    append_bytes(out, e.as_slice());
}

/// Removes the last decoded field, a byte.
pub fn pop_byte(v: &mut Vec<FieldValue>) -> (b: u8)
    requires
        old(v)@.len() > 0,
        kind_of(old(v)@.last()@) == FieldKind::Byte,
    ensures
        final(v)@ == old(v)@.drop_last(),
        Field::Byte(b) == old(v)@.last()@,
{
    match v.pop() {
        Some(FieldValue::Byte(b)) => b,
        _ => {
            assert(false);
            0
        },
    }
}

/// Removes the last decoded field, a u32.
pub fn pop_word(v: &mut Vec<FieldValue>) -> (w: u32)
    requires
        old(v)@.len() > 0,
        kind_of(old(v)@.last()@) == FieldKind::Word,
    ensures
        final(v)@ == old(v)@.drop_last(),
        Field::Word(w) == old(v)@.last()@,
{
    match v.pop() {
        Some(FieldValue::Word(w)) => w,
        _ => {
            assert(false);
            0
        },
    }
}

/// Removes the last decoded field, a string.
pub fn pop_text(v: &mut Vec<FieldValue>) -> (s: String)
    requires
        old(v)@.len() > 0,
        kind_of(old(v)@.last()@) == FieldKind::Text,
    ensures
        final(v)@ == old(v)@.drop_last(),
        Field::Text(s@) == old(v)@.last()@,
{
    match v.pop() {
        Some(FieldValue::Text(s)) => s,
        _ => {
            assert(false);
            String::new()
        },
    }
}

/// The kinds of a decoded field vector, read off its view.
pub proof fn lemma_fields_view_kinds(v: Seq<FieldValue>, ks: Seq<FieldKind>)
    requires
        fields_view(v).len() == ks.len(),
        forall|i: int| 0 <= i < ks.len() ==> kind_of(#[trigger] fields_view(v)[i]) == ks[i],
    ensures
        v.len() == ks.len(),
        forall|i: int| 0 <= i < ks.len() ==> kind_of(#[trigger] v[i]@) == ks[i],
        forall|i: int| 0 <= i < ks.len() ==> #[trigger] v[i]@ == fields_view(v)[i],
{
    assert forall|i: int| 0 <= i < ks.len() implies kind_of(#[trigger] v[i]@) == ks[i] by {
        assert(fields_view(v)[i] == v[i]@);
    }
}

/// Writing one more field appends its bytes.
pub proof fn lemma_fields_bytes_push(fs: Seq<Field>, f: Field)
    ensures
        fields_bytes(fs.push(f)) == fields_bytes(fs) + field_bytes(f),
    decreases fs.len(),
{
    if fs.len() == 0 {
        let e = fs.push(f).drop_first();
        assert(e =~= seq![]);
        assert(fields_bytes(e) =~= seq![]);
        assert(fields_bytes(fs) =~= seq![]);
        assert(fields_bytes(fs.push(f)) =~= field_bytes(f) + fields_bytes(e));
    } else {
        lemma_fields_bytes_push(fs.drop_first(), f);
        assert(fs.push(f).drop_first() =~= fs.drop_first().push(f));
        assert(fields_bytes(fs.push(f)) =~= fields_bytes(fs) + field_bytes(f));
    }
}

/// Fields whose bytes are fewer than 2^16 have text fields that fit.
pub proof fn lemma_fields_fit_from_len(fs: Seq<Field>)
    requires
        fields_bytes(fs).len() < 65536,
    ensures
        fields_fit(fs),
    decreases fs.len(),
{
    if fs.len() > 0 {
        let tail = fs.drop_first();
        lemma_fields_fit_from_len(tail);
        assert forall|i: int| 0 <= i < fs.len() implies (#[trigger] fs[i] matches Field::Text(s)
            ==> encode_utf8(s).len() < 65536) by {
            if i > 0 {
                assert(fs[i] == tail[i - 1]);
            }
        }
    }
}

/// Appends a byte field to a payload that holds `head` and then the fields
/// `fs`; returns the extended field sequence.
pub(crate) fn write_byte(
    out: &mut Vec<u8>,
    Ghost(head): Ghost<Seq<u8>>,
    Ghost(fs): Ghost<Seq<Field>>,
    b: u8,
) -> (r: Ghost<Seq<Field>>)
    requires
        old(out)@ == head + fields_bytes(fs),
    ensures
        r@ == fs.push(Field::Byte(b)),
        final(out)@ == head + fields_bytes(r@),
{
    put_byte(out, b);
    proof {
        lemma_fields_bytes_push(fs, Field::Byte(b));
    }
    assert(out@ =~= head + fields_bytes(fs.push(Field::Byte(b))));
    Ghost(fs.push(Field::Byte(b)))
}

/// Appends a u32 field; see `write_byte`.
pub(crate) fn write_word(
    out: &mut Vec<u8>,
    Ghost(head): Ghost<Seq<u8>>,
    Ghost(fs): Ghost<Seq<Field>>,
    w: u32,
) -> (r: Ghost<Seq<Field>>)
    requires
        old(out)@ == head + fields_bytes(fs),
    ensures
        r@ == fs.push(Field::Word(w)),
        final(out)@ == head + fields_bytes(r@),
{
    put_word(out, w);
    proof {
        lemma_fields_bytes_push(fs, Field::Word(w));
    }
    assert(out@ =~= head + fields_bytes(fs.push(Field::Word(w))));
    Ghost(fs.push(Field::Word(w)))
}

/// Appends a string field; see `write_byte`.
pub(crate) fn write_text(
    out: &mut Vec<u8>,
    Ghost(head): Ghost<Seq<u8>>,
    Ghost(fs): Ghost<Seq<Field>>,
    s: &str,
) -> (r: Ghost<Seq<Field>>)
    requires
        old(out)@ == head + fields_bytes(fs),
    ensures
        r@ == fs.push(Field::Text(s@)),
        final(out)@ == head + fields_bytes(r@),
{
    put_text(out, s);
    proof {
        lemma_fields_bytes_push(fs, Field::Text(s@));
    }
    assert(out@ =~= head + fields_bytes(fs.push(Field::Text(s@))));
    Ghost(fs.push(Field::Text(s@)))
}

} // verus!
