//! Settings app state (App -> UI) and settings areas.

use vstd::prelude::*;

use crate::error::ProtocolError;
use crate::fields::{
    decode_fields, decode_fields_spec, fields_bytes, fields_view, kinds_of, lemma_decode_fields_kinds,
    lemma_fields_fit_from_len, lemma_fields_roundtrip, lemma_fields_view_kinds, pop_byte, pop_text,
    write_byte, write_text, Field, FieldKind,
};
use crate::text::string_from;
use crate::type_tags::TYPE_SETTINGS_STATE;
use crate::wire::{
    decode_envelope, decode_envelope_spec, encode_envelope, envelope_bytes,
    lemma_envelope_roundtrip, Envelope, PROTOCOL_VERSION,
};

verus! {

/// Settings area (section).
#[derive(Clone, Copy, Debug, Default, PartialEq, Eq, Structural)]
pub enum SettingsArea {
    #[default]
    General,
    Identity,
    Permissions,
    Theme,
}

/// The area a byte selects; unknown values select `General`.
pub open spec fn area_from_u8(value: u8) -> SettingsArea {
    if value == 1 {
        SettingsArea::Identity
    } else if value == 2 {
        SettingsArea::Permissions
    } else if value == 3 {
        SettingsArea::Theme
    } else {
        SettingsArea::General
    }
}

/// The name of an area.
pub open spec fn area_name(a: SettingsArea) -> Seq<char> {
    match a {
        SettingsArea::General => "general"@,
        SettingsArea::Identity => "identity"@,
        SettingsArea::Permissions => "permissions"@,
        SettingsArea::Theme => "theme"@,
    }
}

impl SettingsArea {
    /// The area with the given number (0..=3); any other value gives `General`.
    pub fn from_u8(value: u8) -> (a: Self)
        ensures
            a == area_from_u8(value),
    {
        match value {
            1 => SettingsArea::Identity,
            2 => SettingsArea::Permissions,
            3 => SettingsArea::Theme,
            _ => SettingsArea::General,
        }
    }

    /// The area's lower-case name.
    pub fn as_str(&self) -> (s: &'static str)
        ensures
            s@ == area_name(*self),
    {
        match self {
            SettingsArea::General => "general",
            SettingsArea::Identity => "identity",
            SettingsArea::Permissions => "permissions",
            SettingsArea::Theme => "theme",
        }
    }
}

/// Settings app state, sent via MSG_APP_STATE.
#[derive(Clone, Debug, Default)]
pub struct SettingsState {
    /// Currently active area (0=General, 1=Identity, 2=Permissions, 3=Theme)
    pub active_area: u8,
    /// Current drill-down item, empty at top level
    pub active_item: String,
    /// Whether to use 24-hour time format
    pub time_format_24h: bool,
    /// Timezone string (e.g. "UTC", "America/New_York")
    pub timezone: String,
    /// Theme mode: "dark", "light", "system"
    pub theme: String,
    /// Accent color
    pub accent: String,
    /// Background style
    pub background: String,
    /// Whether the user has a neural key set up
    pub has_neural_key: bool,
    /// Number of machine keys registered
    pub machine_key_count: u8,
    /// Number of linked accounts
    pub linked_account_count: u8,
    /// Number of running processes
    pub running_process_count: u8,
    /// Total number of capabilities granted
    pub total_capability_count: u8,
}

/// The mathematical value of a settings state.
pub struct SettingsStateView {
    pub active_area: u8,
    pub active_item: Seq<char>,
    pub time_format_24h: bool,
    pub timezone: Seq<char>,
    pub theme: Seq<char>,
    pub accent: Seq<char>,
    pub background: Seq<char>,
    pub has_neural_key: bool,
    pub machine_key_count: u8,
    pub linked_account_count: u8,
    pub running_process_count: u8,
    pub total_capability_count: u8,
}

impl View for SettingsState {
    type V = SettingsStateView;

    open spec fn view(&self) -> SettingsStateView {
        SettingsStateView {
            active_area: self.active_area,
            active_item: self.active_item@,
            time_format_24h: self.time_format_24h,
            timezone: self.timezone@,
            theme: self.theme@,
            accent: self.accent@,
            background: self.background@,
            has_neural_key: self.has_neural_key,
            machine_key_count: self.machine_key_count,
            linked_account_count: self.linked_account_count,
            running_process_count: self.running_process_count,
            total_capability_count: self.total_capability_count,
        }
    }
}

pub open spec fn bool_byte(b: bool) -> u8 {
    if b {
        1
    } else {
        0
    }
}

/// The field layout of a settings payload (after its type tag).
pub open spec fn settings_kinds() -> Seq<FieldKind> {
    seq![
        FieldKind::Byte,
        FieldKind::Text,
        FieldKind::Byte,
        FieldKind::Text,
        FieldKind::Text,
        FieldKind::Text,
        FieldKind::Text,
        FieldKind::Byte,
        FieldKind::Byte,
        FieldKind::Byte,
        FieldKind::Byte,
        FieldKind::Byte,
    ]
}

/// The fields a settings state is written as.
pub open spec fn settings_fields(v: SettingsStateView) -> Seq<Field> {
    seq![
        Field::Byte(v.active_area),
        Field::Text(v.active_item),
        Field::Byte(bool_byte(v.time_format_24h)),
        Field::Text(v.timezone),
        Field::Text(v.theme),
        Field::Text(v.accent),
        Field::Text(v.background),
        Field::Byte(bool_byte(v.has_neural_key)),
        Field::Byte(v.machine_key_count),
        Field::Byte(v.linked_account_count),
        Field::Byte(v.running_process_count),
        Field::Byte(v.total_capability_count),
    ]
}

/// The settings state that decoded fields denote (a byte is true when non-zero).
pub open spec fn settings_from_fields(fs: Seq<Field>) -> SettingsStateView {
    SettingsStateView {
        active_area: fs[0]->Byte_0,
        active_item: fs[1]->Text_0,
        time_format_24h: fs[2]->Byte_0 != 0,
        timezone: fs[3]->Text_0,
        theme: fs[4]->Text_0,
        accent: fs[5]->Text_0,
        background: fs[6]->Text_0,
        has_neural_key: fs[7]->Byte_0 != 0,
        machine_key_count: fs[8]->Byte_0,
        linked_account_count: fs[9]->Byte_0,
        running_process_count: fs[10]->Byte_0,
        total_capability_count: fs[11]->Byte_0,
    }
}

/// The payload of a settings state: its type tag, then its fields.
pub open spec fn settings_payload(v: SettingsStateView) -> Seq<u8> {
    seq![TYPE_SETTINGS_STATE] + fields_bytes(settings_fields(v))
}

/// The settings state a byte sequence decodes to. The envelope's type tag
/// must be the settings tag; the payload's first byte is skipped.
pub open spec fn settings_from_bytes(data: Seq<u8>) -> Result<SettingsStateView, ProtocolError> {
    match decode_envelope_spec(data) {
        Err(e) => Err(e),
        Ok((_, tag, p)) => if tag != TYPE_SETTINGS_STATE {
            Err(ProtocolError::UnexpectedType { expected: TYPE_SETTINGS_STATE, got: tag })
        } else if p.len() == 0 {
            Err(ProtocolError::EmptyPayload)
        } else {
            match decode_fields_spec(p, 1, settings_kinds()).0 {
                Err(e) => Err(e),
                Ok(fs) => Ok(settings_from_fields(fs)),
            }
        },
    }
}

pub open spec fn settings_result_view(r: Result<SettingsState, ProtocolError>) -> Result<
    SettingsStateView,
    ProtocolError,
> {
    match r {
        Ok(s) => Ok(s@),
        Err(e) => Err(e),
    }
}

/// The default settings: area 0, no item, 12-hour time, "UTC", "dark",
/// "cyan", "grain", no neural key, all counts zero.
pub open spec fn settings_defaults() -> SettingsStateView {
    SettingsStateView {
        active_area: 0,
        active_item: seq![],
        time_format_24h: false,
        timezone: "UTC"@,
        theme: "dark"@,
        accent: "cyan"@,
        background: "grain"@,
        has_neural_key: false,
        machine_key_count: 0,
        linked_account_count: 0,
        running_process_count: 0,
        total_capability_count: 0,
    }
}

fn settings_kinds_vec() -> (v: Vec<FieldKind>)
    ensures
        v@ == settings_kinds(),
{
    let mut v: Vec<FieldKind> = Vec::new();
    v.push(FieldKind::Byte);
    v.push(FieldKind::Text);
    v.push(FieldKind::Byte);
    v.push(FieldKind::Text);
    v.push(FieldKind::Text);
    v.push(FieldKind::Text);
    v.push(FieldKind::Text);
    v.push(FieldKind::Byte);
    v.push(FieldKind::Byte);
    v.push(FieldKind::Byte);
    v.push(FieldKind::Byte);
    v.push(FieldKind::Byte);
    assert(v@ =~= settings_kinds());
    v
}

impl SettingsState {
    /// A settings state with the default values.
    pub fn new() -> (s: Self)
        ensures
            s@ == settings_defaults(),
    {
        SettingsState {
            active_area: 0,
            active_item: String::new(),
            time_format_24h: false,
            timezone: string_from("UTC"),
            theme: string_from("dark"),
            accent: string_from("cyan"),
            background: string_from("grain"),
            has_neural_key: false,
            machine_key_count: 0,
            linked_account_count: 0,
            running_process_count: 0,
            total_capability_count: 0,
        }
    }

    /// The initial state: the same as `new`.
    pub fn initial() -> (s: Self)
        ensures
            s@ == settings_defaults(),
    {
        Self::new()
    }

    /// Serialize to bytes (for sending via IPC).
    pub fn to_bytes(&self) -> (bytes: Vec<u8>)
        ensures
            bytes@ == envelope_bytes(PROTOCOL_VERSION, TYPE_SETTINGS_STATE, settings_payload(self@)),
    {
        let mut payload: Vec<u8> = Vec::new();
        payload.push(TYPE_SETTINGS_STATE);
        let ghost head = payload@;
        assert(payload@ =~= head + fields_bytes(seq![]));
        let g: Ghost<Seq<Field>> = Ghost(Seq::empty());
        let g = write_byte(&mut payload, Ghost(head), g, self.active_area);
        let g = write_text(&mut payload, Ghost(head), g, self.active_item.as_str());
        let g = write_byte(&mut payload, Ghost(head), g, if self.time_format_24h { 1 } else { 0 });
        let g = write_text(&mut payload, Ghost(head), g, self.timezone.as_str());
        let g = write_text(&mut payload, Ghost(head), g, self.theme.as_str());
        let g = write_text(&mut payload, Ghost(head), g, self.accent.as_str());
        let g = write_text(&mut payload, Ghost(head), g, self.background.as_str());
        let g = write_byte(&mut payload, Ghost(head), g, if self.has_neural_key { 1 } else { 0 });
        let g = write_byte(&mut payload, Ghost(head), g, self.machine_key_count);
        let g = write_byte(&mut payload, Ghost(head), g, self.linked_account_count);
        let g = write_byte(&mut payload, Ghost(head), g, self.running_process_count);
        let g = write_byte(&mut payload, Ghost(head), g, self.total_capability_count);
        assert(g@ =~= settings_fields(self@));
        let envelope = Envelope::new(TYPE_SETTINGS_STATE, payload);
        encode_envelope(&envelope)
    }

    /// Deserialize from bytes (received via IPC).
    pub fn from_bytes(data: &[u8]) -> (res: Result<Self, ProtocolError>)
        ensures
            settings_result_view(res) == settings_from_bytes(data@),
    {
        let envelope = match decode_envelope(data) {
            Ok(e) => e,
            Err(e) => return Err(e),
        };
        if envelope.type_tag != TYPE_SETTINGS_STATE {
            return Err(
                ProtocolError::UnexpectedType {
                    expected: TYPE_SETTINGS_STATE,
                    got: envelope.type_tag,
                },
            );
        }
        let payload = envelope.payload.as_slice();
        if payload.len() == 0 {
            return Err(ProtocolError::EmptyPayload);
        }
        let kinds = settings_kinds_vec();
        let mut cursor: usize = 1;
        let mut fs = match decode_fields(payload, &mut cursor, kinds.as_slice()) {
            Ok(v) => v,
            Err(e) => return Err(e),
        };
        proof {
            lemma_decode_fields_kinds(payload@, 1, settings_kinds());
            lemma_fields_view_kinds(fs@, settings_kinds());
        }
        let ghost all = fs@;
        let total_capability_count = pop_byte(&mut fs);
        let running_process_count = pop_byte(&mut fs);
        let linked_account_count = pop_byte(&mut fs);
        let machine_key_count = pop_byte(&mut fs);
        let has_neural_key = pop_byte(&mut fs) != 0;
        let background = pop_text(&mut fs);
        let accent = pop_text(&mut fs);
        let theme = pop_text(&mut fs);
        let timezone = pop_text(&mut fs);
        let time_format_24h = pop_byte(&mut fs) != 0;
        let active_item = pop_text(&mut fs);
        let active_area = pop_byte(&mut fs);
        let s = SettingsState {
            active_area,
            active_item,
            time_format_24h,
            timezone,
            theme,
            accent,
            background,
            has_neural_key,
            machine_key_count,
            linked_account_count,
            running_process_count,
            total_capability_count,
        };
        assert(s@ == settings_from_fields(fields_view(all)));
        Ok(s)
    }
}

/// The fields of a settings state decode back from its payload.
proof fn lemma_settings_fields_roundtrip(v: SettingsStateView)
    requires
        settings_payload(v).len() < 65536,
    ensures
        decode_fields_spec(settings_payload(v), 1, settings_kinds()).0 == Ok::<
            Seq<Field>,
            ProtocolError,
        >(settings_fields(v)),
{
    let fs = settings_fields(v);
    let p = settings_payload(v);
    lemma_fields_fit_from_len(fs);
    lemma_fields_roundtrip(seq![TYPE_SETTINGS_STATE], fs, seq![]);
    assert(seq![TYPE_SETTINGS_STATE] + fields_bytes(fs) + seq![] =~= p);
    assert(kinds_of(fs) =~= settings_kinds());
}

/// Every settings state whose payload is shorter than 2^16 bytes decodes to
/// itself.
pub proof fn lemma_settings_roundtrip(v: SettingsStateView)
    requires
        settings_payload(v).len() < 65536,
    ensures
        settings_from_bytes(envelope_bytes(PROTOCOL_VERSION, TYPE_SETTINGS_STATE, settings_payload(v)))
            == Ok::<SettingsStateView, ProtocolError>(v),
{
    let p = settings_payload(v);
    lemma_envelope_roundtrip(TYPE_SETTINGS_STATE, p, seq![]);
    assert(envelope_bytes(PROTOCOL_VERSION, TYPE_SETTINGS_STATE, p) + seq![] =~= envelope_bytes(
        PROTOCOL_VERSION,
        TYPE_SETTINGS_STATE,
        p,
    ));
    lemma_settings_fields_roundtrip(v);
    assert(settings_from_fields(settings_fields(v)) == v);
}

} // verus!
