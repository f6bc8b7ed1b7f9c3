//! Terminal state (Backend -> UI) and terminal input (UI -> Backend).

use vstd::prelude::*;

use crate::error::ProtocolError;
use crate::fields::{
    decode_fields, decode_fields_spec, fields_bytes, fields_view, kinds_of, lemma_decode_fields_kinds,
    lemma_fields_fit_from_len, lemma_fields_roundtrip, lemma_fields_view_kinds, pop_text, pop_word,
    write_text, write_word, Field, FieldKind,
};
use crate::settings::bool_byte;
use crate::text::string_push;
use crate::wire::{
    decode_envelope, decode_envelope_spec, decode_string, decode_string_spec, encode_envelope,
    encode_string, envelope_bytes, lemma_envelope_roundtrip, lemma_string_roundtrip, string_bytes,
    append_bytes, Envelope, PROTOCOL_VERSION,
};

verus! {

/// Type tag for terminal state.
pub const TYPE_TERMINAL_STATE: u8 = 0x03;

/// Type tag for terminal input.
pub const TYPE_TERMINAL_INPUT: u8 = 0x20;

/// Message tag of raw console input delivered by the supervisor.
pub const MSG_CONSOLE_INPUT: u32 = 0x0002;

/// Input action types.
#[derive(Clone, Copy, Debug, PartialEq, Eq, Structural)]
pub enum InputAction {
    /// Regular character input
    Char,
    /// Enter key pressed (execute command)
    Enter,
    /// Tab key pressed (autocomplete)
    Tab,
    /// Up arrow (history previous)
    Up,
    /// Down arrow (history next)
    Down,
    /// Backspace
    Backspace,
    /// Delete
    Delete,
    /// Ctrl+C (interrupt)
    Interrupt,
    /// Ctrl+D (EOF)
    Eof,
    /// Ctrl+L (clear)
    Clear,
}

/// The wire number of an action: its position in the declaration (0..=9).
pub open spec fn action_code(a: InputAction) -> u8 {
    match a {
        InputAction::Char => 0,
        InputAction::Enter => 1,
        InputAction::Tab => 2,
        InputAction::Up => 3,
        InputAction::Down => 4,
        InputAction::Backspace => 5,
        InputAction::Delete => 6,
        InputAction::Interrupt => 7,
        InputAction::Eof => 8,
        InputAction::Clear => 9,
    }
}

/// The action with the given wire number, if any.
pub open spec fn action_from_code(v: u8) -> Option<InputAction> {
    if v == 0 {
        Some(InputAction::Char)
    } else if v == 1 {
        Some(InputAction::Enter)
    } else if v == 2 {
        Some(InputAction::Tab)
    } else if v == 3 {
        Some(InputAction::Up)
    } else if v == 4 {
        Some(InputAction::Down)
    } else if v == 5 {
        Some(InputAction::Backspace)
    } else if v == 6 {
        Some(InputAction::Delete)
    } else if v == 7 {
        Some(InputAction::Interrupt)
    } else if v == 8 {
        Some(InputAction::Eof)
    } else if v == 9 {
        Some(InputAction::Clear)
    } else {
        None
    }
}

impl InputAction {
    /// The action with the given wire number (0..=9), or `None`.
    pub fn from_u8(v: u8) -> (r: Option<Self>)
        ensures
            r == action_from_code(v),
    {
        match v {
            0 => Some(InputAction::Char),
            1 => Some(InputAction::Enter),
            2 => Some(InputAction::Tab),
            3 => Some(InputAction::Up),
            4 => Some(InputAction::Down),
            5 => Some(InputAction::Backspace),
            6 => Some(InputAction::Delete),
            7 => Some(InputAction::Interrupt),
            8 => Some(InputAction::Eof),
            9 => Some(InputAction::Clear),
            _ => None,
        }
    }

    /// The action's wire number.
    pub fn to_u8(self) -> (v: u8)
        ensures
            v == action_code(self),
    {
        match self {
            InputAction::Char => 0,
            InputAction::Enter => 1,
            InputAction::Tab => 2,
            InputAction::Up => 3,
            InputAction::Down => 4,
            InputAction::Backspace => 5,
            InputAction::Delete => 6,
            InputAction::Interrupt => 7,
            InputAction::Eof => 8,
            InputAction::Clear => 9,
        }
    }
}

/// Each action reads back from its wire number.
pub proof fn lemma_action_code_roundtrip(a: InputAction)
    ensures
        action_from_code(action_code(a)) == Some(a),
{
}

// ============================================================================
// Terminal state
// ============================================================================

/// Terminal state sent from backend to UI.
#[derive(Clone, Debug, Default)]
pub struct TerminalState {
    /// Output text to display
    pub output: String,
    /// Current prompt string
    pub prompt: String,
    /// Cursor position in the current input line
    pub cursor_pos: u32,
    /// Whether the terminal is ready for input
    pub ready: bool,
}

/// The mathematical value of a terminal state.
pub struct TerminalStateView {
    pub output: Seq<char>,
    pub prompt: Seq<char>,
    pub cursor_pos: u32,
    pub ready: bool,
}

impl View for TerminalState {
    type V = TerminalStateView;

    open spec fn view(&self) -> TerminalStateView {
        TerminalStateView {
            output: self.output@,
            prompt: self.prompt@,
            cursor_pos: self.cursor_pos,
            ready: self.ready,
        }
    }
}

pub open spec fn terminal_state_kinds() -> Seq<FieldKind> {
    seq![FieldKind::Text, FieldKind::Text, FieldKind::Word]
}

pub open spec fn terminal_state_fields(v: TerminalStateView) -> Seq<Field> {
    seq![Field::Text(v.output), Field::Text(v.prompt), Field::Word(v.cursor_pos)]
}

/// The payload of a terminal state: its type tag, its fields and the ready byte.
pub open spec fn terminal_state_payload(v: TerminalStateView) -> Seq<u8> {
    seq![TYPE_TERMINAL_STATE] + fields_bytes(terminal_state_fields(v)) + seq![bool_byte(v.ready)]
}

/// The terminal state a byte sequence decodes to. Both the envelope's type tag
/// and the payload's first byte must be the terminal state tag; a missing
/// ready byte means ready.
pub open spec fn terminal_state_from_bytes(data: Seq<u8>) -> Result<
    TerminalStateView,
    ProtocolError,
> {
    match decode_envelope_spec(data) {
        Err(e) => Err(e),
        Ok((_, tag, p)) => if tag != TYPE_TERMINAL_STATE {
            Err(ProtocolError::UnexpectedType { expected: TYPE_TERMINAL_STATE, got: tag })
        } else if p.len() == 0 {
            Err(ProtocolError::EmptyPayload)
        } else if p[0] != TYPE_TERMINAL_STATE {
            Err(ProtocolError::UnexpectedType { expected: TYPE_TERMINAL_STATE, got: p[0] })
        } else {
            let (r, c) = decode_fields_spec(p, 1, terminal_state_kinds());
            match r {
                Err(e) => Err(e),
                Ok(fs) => Ok(
                    TerminalStateView {
                        output: fs[0]->Text_0,
                        prompt: fs[1]->Text_0,
                        cursor_pos: fs[2]->Word_0,
                        ready: if c < p.len() {
                            p[c] != 0
                        } else {
                            true
                        },
                    },
                ),
            }
        },
    }
}

pub open spec fn terminal_state_result_view(r: Result<TerminalState, ProtocolError>) -> Result<
    TerminalStateView,
    ProtocolError,
> {
    match r {
        Ok(s) => Ok(s@),
        Err(e) => Err(e),
    }
}

fn terminal_state_kinds_vec() -> (v: Vec<FieldKind>)
    ensures
        v@ == terminal_state_kinds(),
{
    let mut v: Vec<FieldKind> = Vec::new();
    v.push(FieldKind::Text);
    v.push(FieldKind::Text);
    v.push(FieldKind::Word);
    assert(v@ =~= terminal_state_kinds());
    v
}

impl TerminalState {
    /// Create a new terminal state.
    pub fn new(output: String, prompt: String, cursor_pos: u32, ready: bool) -> (s: Self)
        ensures
            s@ == (TerminalStateView { output: output@, prompt: prompt@, cursor_pos, ready }),
    {
        TerminalState { output, prompt, cursor_pos, ready }
    }

    /// A state with just output: empty prompt, cursor 0, ready.
    pub fn output_only(output: String) -> (s: Self)
        ensures
            s@ == (TerminalStateView {
                output: output@,
                prompt: seq![],
                cursor_pos: 0,
                ready: true,
            }),
    {
        TerminalState { output, prompt: String::new(), cursor_pos: 0, ready: true }
    }

    /// A state with a prompt: empty output, cursor 0, ready.
    pub fn with_prompt(prompt: String) -> (s: Self)
        ensures
            s@ == (TerminalStateView {
                output: seq![],
                prompt: prompt@,
                cursor_pos: 0,
                ready: true,
            }),
    {
        TerminalState { output: String::new(), prompt, cursor_pos: 0, ready: true }
    }

    /// Serialize to bytes (for sending via IPC).
    pub fn to_bytes(&self) -> (bytes: Vec<u8>)
        ensures
            bytes@ == envelope_bytes(
                PROTOCOL_VERSION,
                TYPE_TERMINAL_STATE,
                terminal_state_payload(self@),
            ),
    {
        let mut payload: Vec<u8> = Vec::new();
        payload.push(TYPE_TERMINAL_STATE);
        let ghost head = payload@;
        assert(payload@ =~= head + fields_bytes(seq![]));
        let g: Ghost<Seq<Field>> = Ghost(Seq::empty());
        let g = write_text(&mut payload, Ghost(head), g, self.output.as_str());
        let g = write_text(&mut payload, Ghost(head), g, self.prompt.as_str());
        let g = write_word(&mut payload, Ghost(head), g, self.cursor_pos);
        assert(g@ =~= terminal_state_fields(self@));
        payload.push(if self.ready { 1u8 } else { 0u8 });
        assert(payload@ =~= terminal_state_payload(self@));
        let envelope = Envelope::new(TYPE_TERMINAL_STATE, payload);
        encode_envelope(&envelope)
    }

    /// Deserialize from bytes (received via IPC).
    pub fn from_bytes(data: &[u8]) -> (res: Result<Self, ProtocolError>)
        ensures
            terminal_state_result_view(res) == terminal_state_from_bytes(data@),
    {
        let envelope = match decode_envelope(data) {
            Ok(e) => e,
            Err(e) => return Err(e),
        };
        if envelope.type_tag != TYPE_TERMINAL_STATE {
            return Err(
                ProtocolError::UnexpectedType {
                    expected: TYPE_TERMINAL_STATE,
                    got: envelope.type_tag,
                },
            );
        }
        let payload = envelope.payload.as_slice();
        if payload.len() == 0 {
            return Err(ProtocolError::EmptyPayload);
        }
        if payload[0] != TYPE_TERMINAL_STATE {
            return Err(
                ProtocolError::UnexpectedType { expected: TYPE_TERMINAL_STATE, got: payload[0] },
            );
        }
        let kinds = terminal_state_kinds_vec();
        let mut cursor: usize = 1;
        let mut fs = match decode_fields(payload, &mut cursor, kinds.as_slice()) {
            Ok(v) => v,
            Err(e) => return Err(e),
        };
        proof {
            lemma_decode_fields_kinds(payload@, 1, terminal_state_kinds());
            lemma_fields_view_kinds(fs@, terminal_state_kinds());
        }
        let ghost all = fs@;
        let cursor_pos = pop_word(&mut fs);
        let prompt = pop_text(&mut fs);
        let output = pop_text(&mut fs);
        let ready = if cursor < payload.len() {
            payload[cursor] != 0
        } else {
            true
        };
        let s = TerminalState { output, prompt, cursor_pos, ready };
        assert(fields_view(all)[2] == Field::Word(cursor_pos));
        Ok(s)
    }
}

proof fn lemma_terminal_state_fields_roundtrip(v: TerminalStateView)
    requires
        terminal_state_payload(v).len() < 65536,
    ensures
        decode_fields_spec(terminal_state_payload(v), 1, terminal_state_kinds()) == (
            Ok::<Seq<Field>, ProtocolError>(terminal_state_fields(v)),
            1 + fields_bytes(terminal_state_fields(v)).len() as int,
        ),
{
    let p = terminal_state_payload(v);
    let fs = terminal_state_fields(v);
    lemma_fields_fit_from_len(fs);
    lemma_fields_roundtrip(seq![TYPE_TERMINAL_STATE], fs, seq![bool_byte(v.ready)]);
    assert(seq![TYPE_TERMINAL_STATE] + fields_bytes(fs) + seq![bool_byte(v.ready)] =~= p);
    assert(kinds_of(fs) =~= terminal_state_kinds());
}

/// Every terminal state whose payload is shorter than 2^16 bytes decodes to
/// itself.
pub proof fn lemma_terminal_state_roundtrip(v: TerminalStateView)
    requires
        terminal_state_payload(v).len() < 65536,
    ensures
        terminal_state_from_bytes(
            envelope_bytes(PROTOCOL_VERSION, TYPE_TERMINAL_STATE, terminal_state_payload(v)),
        ) == Ok::<TerminalStateView, ProtocolError>(v),
{
    let p = terminal_state_payload(v);
    let fs = terminal_state_fields(v);
    lemma_envelope_roundtrip(TYPE_TERMINAL_STATE, p, seq![]);
    assert(envelope_bytes(PROTOCOL_VERSION, TYPE_TERMINAL_STATE, p) + seq![] =~= envelope_bytes(
        PROTOCOL_VERSION,
        TYPE_TERMINAL_STATE,
        p,
    ));
    lemma_terminal_state_fields_roundtrip(v);
    let c = 1 + fields_bytes(fs).len();
    assert(p[c as int] == bool_byte(v.ready));
    assert(p[0] == TYPE_TERMINAL_STATE);
}

// ============================================================================
// Terminal input
// ============================================================================

/// Terminal input sent from UI to backend.
#[derive(Clone, Debug)]
pub struct TerminalInput {
    /// Input text (the character(s) for Char, the full line for Enter)
    pub text: String,
    /// The action type
    pub action: InputAction,
}

/// The mathematical value of a terminal input.
pub struct TerminalInputView {
    pub text: Seq<char>,
    pub action: InputAction,
}

impl View for TerminalInput {
    type V = TerminalInputView;

    open spec fn view(&self) -> TerminalInputView {
        TerminalInputView { text: self.text@, action: self.action }
    }
}

/// The payload of a terminal input: type tag, action number, text.
pub open spec fn terminal_input_payload(v: TerminalInputView) -> Seq<u8> {
    seq![TYPE_TERMINAL_INPUT, action_code(v.action)] + string_bytes(v.text)
}

/// The terminal input a byte sequence decodes to.
pub open spec fn terminal_input_from_bytes(data: Seq<u8>) -> Result<
    TerminalInputView,
    ProtocolError,
> {
    match decode_envelope_spec(data) {
        Err(e) => Err(e),
        Ok((_, tag, p)) => if tag != TYPE_TERMINAL_INPUT {
            Err(ProtocolError::UnexpectedType { expected: TYPE_TERMINAL_INPUT, got: tag })
        } else if p.len() < 2 {
            Err(ProtocolError::TooShort)
        } else if p[0] != TYPE_TERMINAL_INPUT {
            Err(ProtocolError::UnexpectedType { expected: TYPE_TERMINAL_INPUT, got: p[0] })
        } else {
            match action_from_code(p[1]) {
                None => Err(ProtocolError::InvalidEnumValue { field: "InputAction", value: p[1] }),
                Some(action) => match decode_string_spec(p, 2).0 {
                    Err(e) => Err(e),
                    Ok(text) => Ok(TerminalInputView { text, action }),
                },
            }
        },
    }
}

pub open spec fn terminal_input_result_view(r: Result<TerminalInput, ProtocolError>) -> Result<
    TerminalInputView,
    ProtocolError,
> {
    match r {
        Ok(s) => Ok(s@),
        Err(e) => Err(e),
    }
}

impl TerminalInput {
    /// A character input.
    pub fn char(c: char) -> (t: Self)
        ensures
            t@ == (TerminalInputView { text: seq![c], action: InputAction::Char }),
    {
        let mut text = String::new();
        string_push(&mut text, c);
        assert(text@ =~= seq![c]);
        TerminalInput { text, action: InputAction::Char }
    }

    /// An enter (execute) input carrying the full line.
    pub fn enter(line: String) -> (t: Self)
        ensures
            t@ == (TerminalInputView { text: line@, action: InputAction::Enter }),
    {
        TerminalInput { text: line, action: InputAction::Enter }
    }

    /// A special action input with empty text.
    pub fn action(action: InputAction) -> (t: Self)
        ensures
            t@ == (TerminalInputView { text: seq![], action }),
    {
        TerminalInput { text: String::new(), action }
    }

    /// Serialize to bytes (for sending via IPC).
    pub fn to_bytes(&self) -> (bytes: Vec<u8>)
        ensures
            bytes@ == envelope_bytes(
                PROTOCOL_VERSION,
                TYPE_TERMINAL_INPUT,
                terminal_input_payload(self@),
            ),
    {
        let mut payload: Vec<u8> = Vec::new();
        payload.push(TYPE_TERMINAL_INPUT);
        payload.push(self.action.to_u8());
        let e = encode_string(self.text.as_str());
        append_bytes(&mut payload, e.as_slice());
        assert(payload@ =~= terminal_input_payload(self@));
        let envelope = Envelope::new(TYPE_TERMINAL_INPUT, payload);
        encode_envelope(&envelope)
    }

    /// Deserialize from bytes (received via IPC).
    pub fn from_bytes(data: &[u8]) -> (res: Result<Self, ProtocolError>)
        ensures
            terminal_input_result_view(res) == terminal_input_from_bytes(data@),
    {
        let envelope = match decode_envelope(data) {
            Ok(e) => e,
            Err(e) => return Err(e),
        };
        if envelope.type_tag != TYPE_TERMINAL_INPUT {
            return Err(
                ProtocolError::UnexpectedType {
                    expected: TYPE_TERMINAL_INPUT,
                    got: envelope.type_tag,
                },
            );
        }
        let payload = envelope.payload.as_slice();
        if payload.len() < 2 {
            return Err(ProtocolError::TooShort);
        }
        if payload[0] != TYPE_TERMINAL_INPUT {
            return Err(
                ProtocolError::UnexpectedType { expected: TYPE_TERMINAL_INPUT, got: payload[0] },
            );
        }
        let raw_action = payload[1];
        let action = match InputAction::from_u8(raw_action) {
            Some(a) => a,
            None => {
                return Err(
                    ProtocolError::InvalidEnumValue { field: "InputAction", value: raw_action },
                )
            },
        };
        let mut cursor: usize = 2;
        let text = match decode_string(payload, &mut cursor) {
            Ok(t) => t,
            Err(e) => return Err(e),
        };
        Ok(TerminalInput { text, action })
    }
}

/// Every terminal input whose payload is shorter than 2^16 bytes decodes to
/// itself.
pub proof fn lemma_terminal_input_roundtrip(v: TerminalInputView)
    requires
        terminal_input_payload(v).len() < 65536,
    ensures
        terminal_input_from_bytes(
            envelope_bytes(PROTOCOL_VERSION, TYPE_TERMINAL_INPUT, terminal_input_payload(v)),
        ) == Ok::<TerminalInputView, ProtocolError>(v),
{
    let p = terminal_input_payload(v);
    lemma_envelope_roundtrip(TYPE_TERMINAL_INPUT, p, seq![]);
    assert(envelope_bytes(PROTOCOL_VERSION, TYPE_TERMINAL_INPUT, p) + seq![] =~= envelope_bytes(
        PROTOCOL_VERSION,
        TYPE_TERMINAL_INPUT,
        p,
    ));
    let h = seq![TYPE_TERMINAL_INPUT, action_code(v.action)];
    lemma_string_roundtrip(h, v.text, seq![]);
    assert(h + string_bytes(v.text) + seq![] =~= p);
    lemma_action_code_roundtrip(v.action);
}

} // verus!
