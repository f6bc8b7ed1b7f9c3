//! Input events (UI -> App).

use vstd::prelude::*;

use crate::error::ProtocolError;
use crate::text::{str_eq, string_from};
use crate::type_tags::{TYPE_BUTTON_PRESS, TYPE_FOCUS_CHANGE, TYPE_KEY_PRESS, TYPE_TEXT_INPUT};
use crate::wire::{
    append_bytes, decode_envelope, decode_envelope_spec, decode_string, decode_string_spec,
    decode_u32, decode_u32_spec, decode_u8, decode_u8_spec, encode_envelope, encode_string,
    envelope_bytes, le32_bytes, lemma_envelope_roundtrip, lemma_string_roundtrip,
    lemma_u32_roundtrip, lemma_u8_roundtrip, push_u32_le, string_bytes, Envelope, PROTOCOL_VERSION,
};

verus! {

/// Abstract input event (the UI converts platform events to these).
#[derive(Clone, Debug)]
pub enum InputEvent {
    /// A named button was pressed (e.g. "digit_5", "op_add", "clear").
    ButtonPress { name: String },
    /// Text was entered.
    TextInput { text: String },
    /// A key was pressed; modifiers: shift=1, ctrl=2, alt=4.
    KeyPress { key_code: u32, modifiers: u8 },
    /// Focus gained (true) or lost (false).
    FocusChange { gained: bool },
}

/// The mathematical value of an input event.
pub enum InputEventView {
    ButtonPress { name: Seq<char> },
    TextInput { text: Seq<char> },
    KeyPress { key_code: u32, modifiers: u8 },
    FocusChange { gained: bool },
}

impl View for InputEvent {
    type V = InputEventView;

    open spec fn view(&self) -> InputEventView {
        match self {
            InputEvent::ButtonPress { name } => InputEventView::ButtonPress { name: name@ },
            InputEvent::TextInput { text } => InputEventView::TextInput { text: text@ },
            InputEvent::KeyPress { key_code, modifiers } => InputEventView::KeyPress {
                key_code: *key_code,
                modifiers: *modifiers,
            },
            InputEvent::FocusChange { gained } => InputEventView::FocusChange { gained: *gained },
        }
    }
}

/// The type tag of an event.
pub open spec fn input_tag(e: InputEventView) -> u8 {
    match e {
        InputEventView::ButtonPress { .. } => TYPE_BUTTON_PRESS,
        InputEventView::TextInput { .. } => TYPE_TEXT_INPUT,
        InputEventView::KeyPress { .. } => TYPE_KEY_PRESS,
        InputEventView::FocusChange { .. } => TYPE_FOCUS_CHANGE,
    }
}

/// The payload of an event: its type tag followed by its fields.
pub open spec fn input_payload(e: InputEventView) -> Seq<u8> {
    seq![input_tag(e)] + match e {
        InputEventView::ButtonPress { name } => string_bytes(name),
        InputEventView::TextInput { text } => string_bytes(text),
        InputEventView::KeyPress { key_code, modifiers } => le32_bytes(key_code) + seq![modifiers],
        InputEventView::FocusChange { gained } => seq![if gained { 1u8 } else { 0u8 }],
    }
}

/// The event a payload decodes to (the payload's first byte selects it).
pub open spec fn input_from_payload(p: Seq<u8>) -> Result<InputEventView, ProtocolError> {
    if p.len() == 0 {
        Err(ProtocolError::EmptyPayload)
    } else if p[0] == TYPE_BUTTON_PRESS {
        match decode_string_spec(p, 1).0 {
            Ok(name) => Ok(InputEventView::ButtonPress { name }),
            Err(e) => Err(e),
        }
    } else if p[0] == TYPE_TEXT_INPUT {
        match decode_string_spec(p, 1).0 {
            Ok(text) => Ok(InputEventView::TextInput { text }),
            Err(e) => Err(e),
        }
    } else if p[0] == TYPE_KEY_PRESS {
        let (r1, c1) = decode_u32_spec(p, 1);
        match r1 {
            Err(e) => Err(e),
            Ok(key_code) => match decode_u8_spec(p, c1).0 {
                Err(e) => Err(e),
                Ok(modifiers) => Ok(InputEventView::KeyPress { key_code, modifiers }),
            },
        }
    } else if p[0] == TYPE_FOCUS_CHANGE {
        match decode_u8_spec(p, 1).0 {
            Err(e) => Err(e),
            Ok(b) => Ok(InputEventView::FocusChange { gained: b != 0 }),
        }
    } else {
        Err(ProtocolError::UnknownMessageType(p[0]))
    }
}

/// The event a byte sequence decodes to.
pub open spec fn input_from_bytes(data: Seq<u8>) -> Result<InputEventView, ProtocolError> {
    match decode_envelope_spec(data) {
        Err(e) => Err(e),
        Ok((_, _, p)) => input_from_payload(p),
    }
}

/// The view of a decoded event result.
pub open spec fn input_result_view(r: Result<InputEvent, ProtocolError>) -> Result<
    InputEventView,
    ProtocolError,
> {
    match r {
        Ok(e) => Ok(e@),
        Err(e) => Err(e),
    }
}

impl InputEvent {
    /// Create a button press event.
    pub fn button(name: &str) -> (e: Self)
        ensures
            e@ == (InputEventView::ButtonPress { name: name@ }),
    {
        InputEvent::ButtonPress { name: string_from(name) }
    }

    /// Create a text input event.
    pub fn text(text: &str) -> (e: Self)
        ensures
            e@ == (InputEventView::TextInput { text: text@ }),
    {
        InputEvent::TextInput { text: string_from(text) }
    }

    /// Create a key press event.
    pub fn key(key_code: u32, modifiers: u8) -> (e: Self)
        ensures
            e@ == (InputEventView::KeyPress { key_code, modifiers }),
    {
        InputEvent::KeyPress { key_code, modifiers }
    }

    /// Create a focus change event.
    pub fn focus(gained: bool) -> (e: Self)
        ensures
            e@ == (InputEventView::FocusChange { gained }),
    {
        InputEvent::FocusChange { gained }
    }

    /// Serialize to bytes (for sending via IPC).
    pub fn to_bytes(&self) -> (bytes: Vec<u8>)
        ensures
            bytes@ == envelope_bytes(PROTOCOL_VERSION, input_tag(self@), input_payload(self@)),
    {
        let mut payload: Vec<u8> = Vec::new();
        let type_tag = match self {
            InputEvent::ButtonPress { name } => {
                payload.push(TYPE_BUTTON_PRESS);
                let s = encode_string(name.as_str());
                append_bytes(&mut payload, s.as_slice());
                TYPE_BUTTON_PRESS
            },
            InputEvent::TextInput { text } => {
                payload.push(TYPE_TEXT_INPUT);
                let s = encode_string(text.as_str());
                append_bytes(&mut payload, s.as_slice());
                TYPE_TEXT_INPUT
            },
            InputEvent::KeyPress { key_code, modifiers } => {
                payload.push(TYPE_KEY_PRESS);
                push_u32_le(&mut payload, *key_code);
                payload.push(*modifiers);
                TYPE_KEY_PRESS
            },
            InputEvent::FocusChange { gained } => {
                payload.push(TYPE_FOCUS_CHANGE);
                payload.push(if *gained { 1u8 } else { 0u8 });
                TYPE_FOCUS_CHANGE
            },
        };
        assert(payload@ =~= input_payload(self@));
        let envelope = Envelope::new(type_tag, payload);
        encode_envelope(&envelope)
    }

    /// Deserialize from bytes (received via IPC).
    pub fn from_bytes(data: &[u8]) -> (res: Result<Self, ProtocolError>)
        ensures
            input_result_view(res) == input_from_bytes(data@),
    {
        let envelope = match decode_envelope(data) {
            Ok(e) => e,
            Err(e) => return Err(e),
        };
        let payload = envelope.payload.as_slice();
        if payload.len() == 0 {
            return Err(ProtocolError::EmptyPayload);
        }
        let type_tag = payload[0];
        let mut cursor: usize = 1;
        if type_tag == TYPE_BUTTON_PRESS {
            match decode_string(payload, &mut cursor) {
                Ok(name) => Ok(InputEvent::ButtonPress { name }),
                Err(e) => Err(e),
            }
        } else if type_tag == TYPE_TEXT_INPUT {
            match decode_string(payload, &mut cursor) {
                Ok(text) => Ok(InputEvent::TextInput { text }),
                Err(e) => Err(e),
            }
        } else if type_tag == TYPE_KEY_PRESS {
            let key_code = match decode_u32(payload, &mut cursor) {
                Ok(v) => v,
                Err(e) => return Err(e),
            };
            let modifiers = match decode_u8(payload, &mut cursor) {
                Ok(v) => v,
                Err(e) => return Err(e),
            };
            Ok(InputEvent::KeyPress { key_code, modifiers })
        } else if type_tag == TYPE_FOCUS_CHANGE {
            match decode_u8(payload, &mut cursor) {
                Ok(b) => Ok(InputEvent::FocusChange { gained: b != 0 }),
                Err(e) => Err(e),
            }
        } else {
            Err(ProtocolError::UnknownMessageType(type_tag))
        }
    }

    /// Whether this is a button press with the given name.
    pub fn is_button(&self, expected_name: &str) -> (r: bool)
        ensures
            r == (self@ == (InputEventView::ButtonPress { name: expected_name@ })),
    {
        match self {
            InputEvent::ButtonPress { name } => str_eq(name.as_str(), expected_name),
            _ => false,
        }
    }

    /// The button name, if this is a button press.
    pub fn button_name(&self) -> (r: Option<&str>)
        ensures
            match self@ {
                InputEventView::ButtonPress { name } => r is Some && r->0@ == name,
                _ => r is None,
            },
    {
        match self {
            InputEvent::ButtonPress { name } => Some(name.as_str()),
            _ => None,
        }
    }
}

/// Every event decodes back from its own payload.
pub proof fn lemma_input_payload_roundtrip(e: InputEventView)
    requires
        input_payload(e).len() < 65536,
    ensures
        input_from_payload(input_payload(e)) == Ok::<InputEventView, ProtocolError>(e),
{
    let p = input_payload(e);
    let t = seq![input_tag(e)];
    match e {
        InputEventView::ButtonPress { name } => {
            lemma_string_roundtrip(t, name, seq![]);
            assert(p =~= t + string_bytes(name) + seq![]);
        },
        InputEventView::TextInput { text } => {
            lemma_string_roundtrip(t, text, seq![]);
            assert(p =~= t + string_bytes(text) + seq![]);
        },
        InputEventView::KeyPress { key_code, modifiers } => {
            lemma_u32_roundtrip(t, key_code, seq![modifiers]);
            assert(p =~= t + le32_bytes(key_code) + seq![modifiers]);
            lemma_u8_roundtrip(t + le32_bytes(key_code), modifiers, seq![]);
            assert(p =~= t + le32_bytes(key_code) + seq![modifiers] + seq![]);
        },
        InputEventView::FocusChange { gained } => {
            assert(p[1] == if gained { 1u8 } else { 0u8 });
        },
    }
}

/// Every event whose payload is shorter than 2^16 bytes decodes to itself.
pub proof fn lemma_input_roundtrip(e: InputEventView)
    requires
        input_payload(e).len() < 65536,
    ensures
        input_from_bytes(envelope_bytes(PROTOCOL_VERSION, input_tag(e), input_payload(e)))
            == Ok::<InputEventView, ProtocolError>(e),
{
    let p = input_payload(e);
    lemma_envelope_roundtrip(input_tag(e), p, seq![]);
    assert(envelope_bytes(PROTOCOL_VERSION, input_tag(e), p) + seq![] =~= envelope_bytes(
        PROTOCOL_VERSION,
        input_tag(e),
        p,
    ));
    lemma_input_payload_roundtrip(e);
}

} // verus!
