//! Clock app state (App -> UI).

use vstd::prelude::*;

use crate::error::ProtocolError;
use crate::fields::{
    decode_fields, decode_fields_spec, fields_bytes, fields_view, kinds_of, lemma_decode_fields_kinds,
    lemma_fields_fit_from_len, lemma_fields_roundtrip, lemma_fields_view_kinds, pop_byte, pop_text,
    write_byte, write_text, Field, FieldKind,
};
use crate::settings::bool_byte;
use crate::type_tags::TYPE_CLOCK_STATE;
use crate::wire::{
    decode_envelope, decode_envelope_spec, encode_envelope, envelope_bytes,
    lemma_envelope_roundtrip, Envelope, PROTOCOL_VERSION,
};

verus! {

/// Clock app state, sent via MSG_APP_STATE.
#[derive(Clone, Debug, Default)]
pub struct ClockState {
    /// Formatted time, e.g. "14:32:05"
    pub time_display: String,
    /// Formatted date, e.g. "Wednesday, Jan 21"
    pub date_display: String,
    /// Whether 24-hour format is enabled
    pub is_24_hour: bool,
    /// Timezone name, e.g. "UTC"
    pub timezone: String,
}

/// The mathematical value of a clock state.
pub struct ClockStateView {
    pub time_display: Seq<char>,
    pub date_display: Seq<char>,
    pub is_24_hour: bool,
    pub timezone: Seq<char>,
}

impl View for ClockState {
    type V = ClockStateView;

    open spec fn view(&self) -> ClockStateView {
        ClockStateView {
            time_display: self.time_display@,
            date_display: self.date_display@,
            is_24_hour: self.is_24_hour,
            timezone: self.timezone@,
        }
    }
}

/// The field layout of a clock payload (after its type tag).
pub open spec fn clock_kinds() -> Seq<FieldKind> {
    seq![FieldKind::Text, FieldKind::Text, FieldKind::Byte, FieldKind::Text]
}

/// The fields a clock state is written as.
pub open spec fn clock_fields(v: ClockStateView) -> Seq<Field> {
    seq![
        Field::Text(v.time_display),
        Field::Text(v.date_display),
        Field::Byte(bool_byte(v.is_24_hour)),
        Field::Text(v.timezone),
    ]
}

/// The clock state that decoded fields denote (a byte is true when non-zero).
pub open spec fn clock_from_fields(fs: Seq<Field>) -> ClockStateView {
    ClockStateView {
        time_display: fs[0]->Text_0,
        date_display: fs[1]->Text_0,
        is_24_hour: fs[2]->Byte_0 != 0,
        timezone: fs[3]->Text_0,
    }
}

/// The payload of a clock state: its type tag, then its fields.
pub open spec fn clock_payload(v: ClockStateView) -> Seq<u8> {
    seq![TYPE_CLOCK_STATE] + fields_bytes(clock_fields(v))
}

/// The clock state a byte sequence decodes to. Both the envelope's type tag
/// and the payload's first byte must be the clock tag.
pub open spec fn clock_from_bytes(data: Seq<u8>) -> Result<ClockStateView, ProtocolError> {
    match decode_envelope_spec(data) {
        Err(e) => Err(e),
        Ok((_, tag, p)) => if tag != TYPE_CLOCK_STATE {
            Err(ProtocolError::UnexpectedType { expected: TYPE_CLOCK_STATE, got: tag })
        } else if p.len() == 0 {
            Err(ProtocolError::EmptyPayload)
        } else if p[0] != TYPE_CLOCK_STATE {
            Err(ProtocolError::UnexpectedType { expected: TYPE_CLOCK_STATE, got: p[0] })
        } else {
            match decode_fields_spec(p, 1, clock_kinds()).0 {
                Err(e) => Err(e),
                Ok(fs) => Ok(clock_from_fields(fs)),
            }
        },
    }
}

pub open spec fn clock_result_view(r: Result<ClockState, ProtocolError>) -> Result<
    ClockStateView,
    ProtocolError,
> {
    match r {
        Ok(s) => Ok(s@),
        Err(e) => Err(e),
    }
}

fn clock_kinds_vec() -> (v: Vec<FieldKind>)
    ensures
        v@ == clock_kinds(),
{
    let mut v: Vec<FieldKind> = Vec::new();
    v.push(FieldKind::Text);
    v.push(FieldKind::Text);
    v.push(FieldKind::Byte);
    v.push(FieldKind::Text);
    assert(v@ =~= clock_kinds());
    v
}

impl ClockState {
    /// Create a new clock state.
    pub fn new(time_display: String, date_display: String, is_24_hour: bool, timezone: String) -> (s:
        Self)
        ensures
            s@ == (ClockStateView {
                time_display: time_display@,
                date_display: date_display@,
                is_24_hour,
                timezone: timezone@,
            }),
    {
        ClockState { time_display, date_display, is_24_hour, timezone }
    }

    /// Serialize to bytes (for sending via IPC).
    pub fn to_bytes(&self) -> (bytes: Vec<u8>)
        ensures
            bytes@ == envelope_bytes(PROTOCOL_VERSION, TYPE_CLOCK_STATE, clock_payload(self@)),
    {
        let mut payload: Vec<u8> = Vec::new();
        payload.push(TYPE_CLOCK_STATE);
        let ghost head = payload@;
        assert(payload@ =~= head + fields_bytes(seq![]));
        let g: Ghost<Seq<Field>> = Ghost(Seq::empty());
        let g = write_text(&mut payload, Ghost(head), g, self.time_display.as_str());
        let g = write_text(&mut payload, Ghost(head), g, self.date_display.as_str());
        let g = write_byte(&mut payload, Ghost(head), g, if self.is_24_hour { 1 } else { 0 });
        let g = write_text(&mut payload, Ghost(head), g, self.timezone.as_str());
        assert(g@ =~= clock_fields(self@));
        let envelope = Envelope::new(TYPE_CLOCK_STATE, payload);
        encode_envelope(&envelope)
    }

    /// Deserialize from bytes (received via IPC).
    pub fn from_bytes(data: &[u8]) -> (res: Result<Self, ProtocolError>)
        ensures
            clock_result_view(res) == clock_from_bytes(data@),
    {
        let envelope = match decode_envelope(data) {
            Ok(e) => e,
            Err(e) => return Err(e),
        };
        if envelope.type_tag != TYPE_CLOCK_STATE {
            return Err(
                ProtocolError::UnexpectedType { expected: TYPE_CLOCK_STATE, got: envelope.type_tag },
            );
        }
        let payload = envelope.payload.as_slice();
        if payload.len() == 0 {
            return Err(ProtocolError::EmptyPayload);
        }
        if payload[0] != TYPE_CLOCK_STATE {
            return Err(ProtocolError::UnexpectedType { expected: TYPE_CLOCK_STATE, got: payload[0] });
        }
        let kinds = clock_kinds_vec();
        let mut cursor: usize = 1;
        let mut fs = match decode_fields(payload, &mut cursor, kinds.as_slice()) {
            Ok(v) => v,
            Err(e) => return Err(e),
        };
        proof {
            lemma_decode_fields_kinds(payload@, 1, clock_kinds());
            lemma_fields_view_kinds(fs@, clock_kinds());
        }
        let ghost all = fs@;
        let timezone = pop_text(&mut fs);
        let is_24_hour = pop_byte(&mut fs) != 0;
        let date_display = pop_text(&mut fs);
        let time_display = pop_text(&mut fs);
        let s = ClockState { time_display, date_display, is_24_hour, timezone };
        assert(s@ == clock_from_fields(fields_view(all)));
        Ok(s)
    }
}

/// The fields of a clock state decode back from its payload.
proof fn lemma_clock_fields_roundtrip(v: ClockStateView)
    requires
        clock_payload(v).len() < 65536,
    ensures
        decode_fields_spec(clock_payload(v), 1, clock_kinds()).0 == Ok::<Seq<Field>, ProtocolError>(
            clock_fields(v),
        ),
{
    let fs = clock_fields(v);
    let p = clock_payload(v);
    lemma_fields_fit_from_len(fs);
    lemma_fields_roundtrip(seq![TYPE_CLOCK_STATE], fs, seq![]);
    assert(seq![TYPE_CLOCK_STATE] + fields_bytes(fs) + seq![] =~= p);
    assert(kinds_of(fs) =~= clock_kinds());
}

/// Every clock state whose payload is shorter than 2^16 bytes decodes to
/// itself.
pub proof fn lemma_clock_roundtrip(v: ClockStateView)
    requires
        clock_payload(v).len() < 65536,
    ensures
        clock_from_bytes(envelope_bytes(PROTOCOL_VERSION, TYPE_CLOCK_STATE, clock_payload(v)))
            == Ok::<ClockStateView, ProtocolError>(v),
{
    let p = clock_payload(v);
    lemma_envelope_roundtrip(TYPE_CLOCK_STATE, p, seq![]);
    assert(envelope_bytes(PROTOCOL_VERSION, TYPE_CLOCK_STATE, p) + seq![] =~= envelope_bytes(
        PROTOCOL_VERSION,
        TYPE_CLOCK_STATE,
        p,
    ));
    lemma_clock_fields_roundtrip(v);
    assert(p[0] == TYPE_CLOCK_STATE);
    assert(clock_from_fields(clock_fields(v)) == v);
}

} // verus!
