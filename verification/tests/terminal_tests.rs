use zos_apps::terminal::{CapInfo, ProcessInfo, TerminalApp, TerminalRequest, E_BADF, E_NOENT, E_PERM};
use zos_apps::terminal_state::{TerminalInput, MSG_CONSOLE_INPUT};

fn drain(t: &mut TerminalApp) -> String {
    t.flush_output().unwrap_or_default()
}

#[test]
fn init_writes_banner_and_prompt() {
    let mut t = TerminalApp::new();
    assert_eq!(t.flush_output(), None);
    t.init();
    assert_eq!(
        drain(&mut t),
        "Zero OS Terminal\nType 'help' for available commands.\n\nzero> "
    );
    assert_eq!(t.flush_output(), None);
}

#[test]
fn echo_writes_text_then_prompt() {
    let mut t = TerminalApp::new();
    let req = t.handle_raw_input("  echo hi there ");
    assert_eq!(req, TerminalRequest::Nothing);
    assert_eq!(drain(&mut t), "hi there\nzero> ");
}

#[test]
fn empty_line_only_prompts() {
    let mut t = TerminalApp::new();
    assert_eq!(t.handle_raw_input("   "), TerminalRequest::Nothing);
    assert_eq!(drain(&mut t), "zero> ");
}

#[test]
fn parse_errors_are_reported() {
    let mut t = TerminalApp::new();
    assert_eq!(t.execute_command("kill abc"), TerminalRequest::Nothing);
    assert_eq!(drain(&mut t), "Error: pid must be a number\n");
    assert_eq!(t.execute_command("spawn"), TerminalRequest::Nothing);
    assert_eq!(drain(&mut t), "Error: spawn requires process_type\n");
}

#[test]
fn requests_defer_the_prompt_until_completion() {
    let mut t = TerminalApp::new();
    assert_eq!(t.handle_raw_input("time"), TerminalRequest::Time);
    assert_eq!(t.flush_output(), None);
    t.cmd_time(3_042_000_000);
    assert_eq!(drain(&mut t), "Uptime: 3.042s\nzero> ");
}

#[test]
fn uptime_pads_milliseconds() {
    let mut t = TerminalApp::new();
    t.cmd_time(5_007_999_999);
    assert_eq!(drain(&mut t), "Uptime: 5.007s\n");
}

#[test]
fn spawn_and_exit_requests() {
    let mut t = TerminalApp::new();
    assert_eq!(
        t.execute_command("spawn clock"),
        TerminalRequest::Spawn { process_type: "clock".to_string() }
    );
    assert_eq!(t.execute_command("exit"), TerminalRequest::Exit);
}

#[test]
fn cap_error_texts() {
    let t = TerminalApp::new();
    assert_eq!(t.format_cap_error(E_BADF), "Permission denied: capability has been revoked");
    assert_eq!(t.format_cap_error(E_PERM), "Permission denied: insufficient capability permissions");
    assert_eq!(t.format_cap_error(E_NOENT), "Resource not found: capability may have been revoked");
    assert_eq!(t.format_cap_error(77), "Operation failed (error code 77)");
}

#[test]
fn grant_and_revoke_outcomes() {
    let mut t = TerminalApp::new();
    t.cmd_grant(1, 42, Ok(7));
    assert_eq!(drain(&mut t), "Granted capability (slot 1 -> PID 42 at slot 7)\n");
    t.cmd_grant(1, 42, Err(E_PERM));
    assert_eq!(drain(&mut t), "Error: Permission denied: insufficient capability permissions\n");
    t.cmd_revoke(5, Ok(()));
    assert_eq!(drain(&mut t), "Deleted capability at slot 5\n");
}

#[test]
fn ps_and_caps_listings_are_written() {
    let mut t = TerminalApp::new();
    t.cmd_ps(&[ProcessInfo { pid: 3, name: "terminal".to_string(), state: 0 }]);
    let out = drain(&mut t);
    assert!(out.contains("terminal"));
    assert!(out.contains('3'));
    t.cmd_caps(&[CapInfo {
        slot: 2,
        object_type: 0,
        can_read: true,
        can_write: false,
        can_grant: false,
        object_id: 9,
    }]);
    let out = drain(&mut t);
    assert!(out.contains('2'));
}

#[test]
fn history_navigation() {
    let mut t = TerminalApp::new();
    t.handle_input(&TerminalInput::enter("echo one".to_string()));
    t.handle_input(&TerminalInput::enter("echo two".to_string()));
    drain(&mut t);
    let up = TerminalInput::action(zos_apps::terminal_state::InputAction::Up);
    assert_eq!(t.handle_input(&up), TerminalRequest::Nothing);
    assert_eq!(t.flush_output(), None);
}

#[test]
fn console_input_message_runs_the_line() {
    let mut t = TerminalApp::new();
    let req = t.on_message(MSG_CONSOLE_INPUT, b"echo via console");
    assert_eq!(req, TerminalRequest::Nothing);
    assert_eq!(drain(&mut t), "via console\nzero> ");
    assert_eq!(t.on_message(0xFFFF, b"ignored"), TerminalRequest::Nothing);
    assert_eq!(t.flush_output(), None);
}

#[test]
fn revocation_notice_names_the_slot() {
    let mut t = TerminalApp::new();
    let mut data = vec![4u8, 0, 0, 0, 99];
    data.extend_from_slice(&[0u8; 9]);
    t.handle_cap_revoked(&data);
    assert_eq!(
        drain(&mut t),
        "\n\u{1b}[33mWarning: Unknown capability (slot 4) was revoked\u{1b}[0m\nzero> "
    );
    t.handle_cap_revoked(&[1, 2, 3]);
    assert_eq!(t.flush_output(), None);
}
