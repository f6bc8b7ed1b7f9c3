use zos_apps::clock::ClockState;
use zos_apps::error::ProtocolError;
use zos_apps::input::InputEvent;
use zos_apps::modifiers;
use zos_apps::settings::{SettingsArea, SettingsState};
use zos_apps::terminal_state::{InputAction, TerminalInput, TerminalState};
use zos_apps::wire::{encode_envelope, Envelope};

#[test]
fn test_button_press_roundtrip() {
    let event = InputEvent::button("digit_5");
    let bytes = event.to_bytes();
    let decoded = InputEvent::from_bytes(&bytes).unwrap();

    match decoded {
        InputEvent::ButtonPress { name } => assert_eq!(name, "digit_5"),
        _ => panic!("Expected ButtonPress"),
    }
}

#[test]
fn test_text_input_roundtrip() {
    let event = InputEvent::text("Hello, World!");
    let bytes = event.to_bytes();
    let decoded = InputEvent::from_bytes(&bytes).unwrap();

    match decoded {
        InputEvent::TextInput { text } => assert_eq!(text, "Hello, World!"),
        _ => panic!("Expected TextInput"),
    }
}

#[test]
fn test_key_press_roundtrip() {
    let event = InputEvent::key(65, modifiers::SHIFT | modifiers::CTRL);
    let bytes = event.to_bytes();
    let decoded = InputEvent::from_bytes(&bytes).unwrap();

    match decoded {
        InputEvent::KeyPress { key_code, modifiers } => {
            assert_eq!(key_code, 65);
            assert_eq!(modifiers, 3);
        }
        _ => panic!("Expected KeyPress"),
    }
}

#[test]
fn test_focus_change_roundtrip() {
    let event = InputEvent::focus(true);
    let bytes = event.to_bytes();
    let decoded = InputEvent::from_bytes(&bytes).unwrap();

    match decoded {
        InputEvent::FocusChange { gained } => assert!(gained),
        _ => panic!("Expected FocusChange"),
    }
}

#[test]
fn test_is_button() {
    let event = InputEvent::button("op_add");
    assert!(event.is_button("op_add"));
    assert!(!event.is_button("op_sub"));
}

#[test]
fn input_event_exact_bytes_and_errors() {
    assert_eq!(InputEvent::focus(false).to_bytes(), vec![1, 0x13, 2, 0, 0x13, 0]);
    assert_eq!(
        InputEvent::key(0x01020304, 4).to_bytes(),
        vec![1, 0x12, 6, 0, 0x12, 4, 3, 2, 1, 4]
    );
    let unknown = encode_envelope(&Envelope::new(0x10, vec![0x55]));
    assert_eq!(InputEvent::from_bytes(&unknown).unwrap_err(), ProtocolError::UnknownMessageType(0x55));
    let empty = encode_envelope(&Envelope::new(0x10, vec![]));
    assert_eq!(InputEvent::from_bytes(&empty).unwrap_err(), ProtocolError::EmptyPayload);
    assert_eq!(InputEvent::button("x").button_name(), Some("x"));
    assert_eq!(InputEvent::focus(true).button_name(), None);
    assert!(!InputEvent::text("op_add").is_button("op_add"));
}

#[test]
fn test_settings_state_roundtrip() {
    let state = SettingsState {
        active_area: 2,
        active_item: String::from("permissions"),
        time_format_24h: true,
        timezone: String::from("America/New_York"),
        theme: String::from("dark"),
        accent: String::from("cyan"),
        background: String::from("grain"),
        has_neural_key: true,
        machine_key_count: 3,
        linked_account_count: 2,
        running_process_count: 5,
        total_capability_count: 12,
    };

    let bytes = state.to_bytes();
    let decoded = SettingsState::from_bytes(&bytes).unwrap();

    assert_eq!(decoded.active_area, state.active_area);
    assert_eq!(decoded.active_item, state.active_item);
    assert_eq!(decoded.time_format_24h, state.time_format_24h);
    assert_eq!(decoded.timezone, state.timezone);
    assert_eq!(decoded.theme, state.theme);
    assert_eq!(decoded.accent, state.accent);
    assert_eq!(decoded.background, state.background);
    assert_eq!(decoded.has_neural_key, state.has_neural_key);
    assert_eq!(decoded.machine_key_count, state.machine_key_count);
    assert_eq!(decoded.linked_account_count, state.linked_account_count);
    assert_eq!(decoded.running_process_count, state.running_process_count);
    assert_eq!(decoded.total_capability_count, state.total_capability_count);
}

#[test]
fn test_settings_state_initial() {
    let state = SettingsState::initial();

    let bytes = state.to_bytes();
    let decoded = SettingsState::from_bytes(&bytes).unwrap();

    assert_eq!(decoded.active_area, 0);
    assert_eq!(decoded.theme, "dark");
    assert_eq!(decoded.accent, "cyan");
}

#[test]
fn test_settings_area_conversion() {
    assert_eq!(SettingsArea::from_u8(0), SettingsArea::General);
    assert_eq!(SettingsArea::from_u8(1), SettingsArea::Identity);
    assert_eq!(SettingsArea::from_u8(2), SettingsArea::Permissions);
    assert_eq!(SettingsArea::from_u8(3), SettingsArea::Theme);
    assert_eq!(SettingsArea::from_u8(99), SettingsArea::General);
}

#[test]
fn settings_area_names_and_defaults() {
    assert_eq!(SettingsArea::Identity.as_str(), "identity");
    assert_eq!(SettingsArea::General.as_str(), "general");
    let s = SettingsState::new();
    assert_eq!(s.timezone, "UTC");
    assert_eq!(s.background, "grain");
    assert!(!s.time_format_24h);
}

#[test]
fn settings_wrong_envelope_tag() {
    let bytes = encode_envelope(&Envelope::new(0x01, vec![0x03]));
    assert_eq!(
        SettingsState::from_bytes(&bytes).unwrap_err(),
        ProtocolError::UnexpectedType { expected: 0x03, got: 0x01 }
    );
    let truncated = encode_envelope(&Envelope::new(0x03, vec![0x03, 0]));
    assert_eq!(SettingsState::from_bytes(&truncated).unwrap_err(), ProtocolError::TooShort);
}

#[test]
fn test_clock_state_roundtrip() {
    let state = ClockState {
        time_display: String::from("14:32:05"),
        date_display: String::from("Wednesday, Jan 21"),
        is_24_hour: true,
        timezone: String::from("UTC"),
    };

    let bytes = state.to_bytes();
    let decoded = ClockState::from_bytes(&bytes).unwrap();

    assert_eq!(decoded.time_display, state.time_display);
    assert_eq!(decoded.date_display, state.date_display);
    assert_eq!(decoded.is_24_hour, state.is_24_hour);
    assert_eq!(decoded.timezone, state.timezone);
}

#[test]
fn test_clock_state_12_hour() {
    let state = ClockState {
        time_display: String::from("2:32:05 PM"),
        date_display: String::from("Wed, Jan 21"),
        is_24_hour: false,
        timezone: String::from("America/New_York"),
    };

    let bytes = state.to_bytes();
    let decoded = ClockState::from_bytes(&bytes).unwrap();

    assert!(!decoded.is_24_hour);
}

#[test]
fn clock_payload_tag_checked() {
    let bytes = encode_envelope(&Envelope::new(0x01, vec![0x02, 0, 0]));
    assert_eq!(
        ClockState::from_bytes(&bytes).unwrap_err(),
        ProtocolError::UnexpectedType { expected: 0x01, got: 0x02 }
    );
    let c = ClockState::new(String::from("a"), String::from("b"), true, String::from("c"));
    assert_eq!(
        c.to_bytes(),
        vec![1, 1, 11, 0, 1, 1, 0, b'a', 1, 0, b'b', 1, 1, 0, b'c']
    );
}

#[test]
fn test_terminal_state_roundtrip() {
    let state = TerminalState::new(
        String::from("Hello, World!\n"),
        String::from("zero> "),
        0,
        true,
    );
    let bytes = state.to_bytes();
    let decoded = TerminalState::from_bytes(&bytes).unwrap();

    assert_eq!(decoded.output, "Hello, World!\n");
    assert_eq!(decoded.prompt, "zero> ");
    assert_eq!(decoded.cursor_pos, 0);
    assert!(decoded.ready);
}

#[test]
fn terminal_state_missing_ready_byte_means_ready() {
    let bytes = encode_envelope(&Envelope::new(0x03, vec![0x03, 0, 0, 0, 0, 7, 0, 0, 0]));
    let decoded = TerminalState::from_bytes(&bytes).unwrap();
    assert_eq!(decoded.cursor_pos, 7);
    assert!(decoded.ready);
    let not_ready = TerminalState::new(String::new(), String::new(), 1, false);
    assert!(!TerminalState::from_bytes(&not_ready.to_bytes()).unwrap().ready);
    assert_eq!(TerminalState::output_only(String::from("x")).prompt, "");
    assert_eq!(TerminalState::with_prompt(String::from("p")).output, "");
}

#[test]
fn test_terminal_input_char_roundtrip() {
    let input = TerminalInput::char('x');
    let bytes = input.to_bytes();
    let decoded = TerminalInput::from_bytes(&bytes).unwrap();

    assert_eq!(decoded.text, "x");
    assert_eq!(decoded.action, InputAction::Char);
}

#[test]
fn test_terminal_input_enter_roundtrip() {
    let input = TerminalInput::enter(String::from("ps"));
    let bytes = input.to_bytes();
    let decoded = TerminalInput::from_bytes(&bytes).unwrap();

    assert_eq!(decoded.text, "ps");
    assert_eq!(decoded.action, InputAction::Enter);
}

#[test]
fn test_terminal_input_action_roundtrip() {
    let input = TerminalInput::action(InputAction::Tab);
    let bytes = input.to_bytes();
    let decoded = TerminalInput::from_bytes(&bytes).unwrap();

    assert_eq!(decoded.text, "");
    assert_eq!(decoded.action, InputAction::Tab);
}

#[test]
fn terminal_input_errors() {
    let bytes = encode_envelope(&Envelope::new(0x20, vec![0x20, 42, 0, 0]));
    assert_eq!(
        TerminalInput::from_bytes(&bytes).unwrap_err(),
        ProtocolError::InvalidEnumValue { field: "InputAction", value: 42 }
    );
    let short = encode_envelope(&Envelope::new(0x20, vec![0x20]));
    assert_eq!(TerminalInput::from_bytes(&short).unwrap_err(), ProtocolError::TooShort);
    assert_eq!(InputAction::from_u8(9), Some(InputAction::Clear));
    assert_eq!(InputAction::from_u8(10), None);
    assert_eq!(InputAction::Eof.to_u8(), 8);
}
