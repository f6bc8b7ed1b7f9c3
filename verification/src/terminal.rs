//! The terminal application's state machine: it buffers console output,
//! keeps a command history, and executes command lines. Commands that need
//! the kernel (listing processes or capabilities, granting, revoking,
//! reading the clock, spawning, exiting) are handed to the host as a
//! request; the host performs it and passes the outcome back to the
//! matching `cmd_*` method, which writes the output.

use vstd::prelude::*;

use crate::command::{parse_spec, Command, CommandView, ParseError};
use crate::manifest::{object_type_from_code, object_type_name, ObjectType, Permissions};
use crate::tags::MSG_APP_INPUT;
use crate::terminal_state::{
    terminal_input_from_bytes, InputAction, TerminalInput, TerminalInputView, MSG_CONSOLE_INPUT,
};
use crate::text::{chars_of, decimal, push_decimal, push_str, string_from, string_from_chars};
use crate::wire::{le32_value, string_from_utf8};
use crate::words::{pad_left, pad_right, push_padded_left, push_padded_right, trim, trim_str};

verus! {

/// Message tag of a capability revocation notice from the supervisor.
pub const MSG_CAP_REVOKED: u32 = 0x0011;

/// Error code: bad capability slot (revoked).
pub const E_BADF: u32 = 9;

/// Error code: insufficient permissions.
pub const E_PERM: u32 = 1;

/// Error code: no such object.
pub const E_NOENT: u32 = 2;

/// The prompt.
pub open spec fn prompt() -> Seq<char> {
    "zero> "@
}

/// Clear-screen escape sequence.
pub open spec fn clear_seq() -> Seq<char> {
    "\x1B[2J\x1B[H"@
}

pub open spec fn line(t: Seq<char>) -> Seq<char> {
    t + "\n"@
}

/// A process as listed by the kernel.
#[derive(Clone, Debug)]
pub struct ProcessInfo {
    pub pid: u32,
    pub name: String,
    /// 0 = running, 1 = blocked, 2 = zombie
    pub state: u8,
}

/// A capability as listed by the kernel.
#[derive(Clone, Copy, Debug)]
pub struct CapInfo {
    pub slot: u32,
    pub object_type: u8,
    pub can_read: bool,
    pub can_write: bool,
    pub can_grant: bool,
    pub object_id: u64,
}

/// Work a command needs from the kernel.
#[derive(Clone, Debug, PartialEq, Eq)]
pub enum TerminalRequest {
    /// Nothing to do
    Nothing,
    /// List processes, then call `cmd_ps`
    ListProcesses,
    /// List capabilities, then call `cmd_caps`
    ListCaps,
    /// Ask init to spawn a process of this type
    Spawn { process_type: String },
    /// Grant a capability, then call `cmd_grant`
    Grant { from_slot: u32, to_pid: u32, permissions: Permissions },
    /// Delete a capability, then call `cmd_revoke`
    Revoke { slot: u32 },
    /// Read the uptime, then call `cmd_time`
    Time,
    /// Exit the process with code 0
    Exit,
}

/// The mathematical value of a request.
pub enum RequestView {
    Nothing,
    ListProcesses,
    ListCaps,
    Spawn { process_type: Seq<char> },
    Grant { from_slot: u32, to_pid: u32, permissions: Permissions },
    Revoke { slot: u32 },
    Time,
    Exit,
}

impl View for TerminalRequest {
    type V = RequestView;

    open spec fn view(&self) -> RequestView {
        match self {
            TerminalRequest::Nothing => RequestView::Nothing,
            TerminalRequest::ListProcesses => RequestView::ListProcesses,
            TerminalRequest::ListCaps => RequestView::ListCaps,
            TerminalRequest::Spawn { process_type } => RequestView::Spawn {
                process_type: process_type@,
            },
            TerminalRequest::Grant { from_slot, to_pid, permissions } => RequestView::Grant {
                from_slot: *from_slot,
                to_pid: *to_pid,
                permissions: *permissions,
            },
            TerminalRequest::Revoke { slot } => RequestView::Revoke { slot: *slot },
            TerminalRequest::Time => RequestView::Time,
            TerminalRequest::Exit => RequestView::Exit,
        }
    }
}

/// Whether the host must pass an outcome back for this request.
pub open spec fn needs_completion(r: RequestView) -> bool {
    match r {
        RequestView::ListProcesses | RequestView::ListCaps | RequestView::Grant { .. }
        | RequestView::Revoke { .. } | RequestView::Time => true,
        _ => false,
    }
}

/// The help text.
pub open spec fn help_text() -> Seq<char> {
    line("=== Zero Terminal (userspace shell) ==="@) + line(""@) + line("Process Management:"@)
        + line("  ps                - List running processes"@) + line(
        "  spawn <type>      - Request process spawn"@,
    ) + line("  kill <pid>        - Request process termination"@) + line(""@) + line(
        "Capabilities:"@,
    ) + line("  caps              - List my capabilities"@) + line(
        "  grant <slot> <pid> <perms> - Grant capability"@,
    ) + line("  revoke <slot>     - Revoke own capability"@) + line(""@) + line("System:"@)
        + line("  echo <text>       - Echo text"@) + line("  time              - Show system uptime"@)
        + line("  clear             - Clear the screen"@) + line(
        "  exit              - Exit the terminal"@,
    )
}

/// The text a parse error is reported with.
pub open spec fn parse_error_text(e: ParseError) -> Seq<char> {
    match e {
        ParseError::MissingArgument { command, argument } => line(
            "Error: "@ + command@ + " requires "@ + argument@,
        ),
        ParseError::InvalidArgument { argument, reason } => line(
            "Error: "@ + argument@ + " "@ + reason@,
        ),
    }
}

/// The output a command writes at once, and the request it hands the host.
pub open spec fn command_effect(c: CommandView) -> (Seq<char>, RequestView) {
    match c {
        CommandView::Help => (help_text(), RequestView::Nothing),
        CommandView::Ps => (seq![], RequestView::ListProcesses),
        CommandView::Caps => (seq![], RequestView::ListCaps),
        CommandView::Spawn { process_type } => (
            line("Requested spawn of '"@ + process_type + "'..."@),
            RequestView::Spawn { process_type },
        ),
        CommandView::Kill { .. } => (
            line("Error: Kill requires supervisor privilege"@) + line(
                "(Terminal cannot directly kill processes yet)"@,
            ),
            RequestView::Nothing,
        ),
        CommandView::Grant { from_slot, to_pid, permissions } => (
            seq![],
            RequestView::Grant { from_slot, to_pid, permissions },
        ),
        CommandView::Revoke { slot } => (seq![], RequestView::Revoke { slot }),
        CommandView::Echo { text } => (line(text), RequestView::Nothing),
        CommandView::Time => (seq![], RequestView::Time),
        CommandView::Clear => (clear_seq(), RequestView::Nothing),
        CommandView::Exit => (line("Goodbye!"@), RequestView::Exit),
        CommandView::Unknown { cmd } => if cmd.len() == 0 {
            (seq![], RequestView::Nothing)
        } else {
            (
                line("Unknown command: "@ + cmd) + line("Type 'help' for available commands."@),
                RequestView::Nothing,
            )
        },
    }
}

/// The output and request of executing a command line.
pub open spec fn execute_effect(l: Seq<char>) -> (Seq<char>, RequestView) {
    match parse_spec(l) {
        Ok(c) => command_effect(c),
        Err(e) => (parse_error_text(e), RequestView::Nothing),
    }
}

/// The name of a process state.
pub open spec fn state_name(s: u8) -> Seq<char> {
    if s == 0 {
        "Running"@
    } else if s == 1 {
        "Blocked"@
    } else if s == 2 {
        "Zombie"@
    } else {
        "???"@
    }
}

/// The listing of processes.
pub open spec fn ps_text(procs: Seq<(u32, Seq<char>, u8)>) -> Seq<char> {
    line("PID  STATE    NAME"@) + line("---  -----    ----"@) + if procs.len() == 0 {
        line("(no process data available)"@)
    } else {
        ps_lines(procs)
    }
}

pub open spec fn ps_lines(procs: Seq<(u32, Seq<char>, u8)>) -> Seq<char>
    decreases procs.len(),
{
    if procs.len() == 0 {
        seq![]
    } else {
        let p = procs.last();
        ps_lines(procs.drop_last()) + line(
            pad_right(decimal(p.0 as nat), 4) + " "@ + pad_right(state_name(p.2), 8) + " "@ + p.1,
        )
    }
}

/// The name of an object type code in a capability listing.
pub open spec fn cap_kind_name(t: u8) -> Seq<char> {
    if 1 <= t <= 8 {
        object_type_name(object_type_from_code(t).unwrap())
    } else {
        "???"@
    }
}

pub open spec fn perm_text(b: bool, letter: Seq<char>) -> Seq<char> {
    if b {
        letter
    } else {
        "-"@
    }
}

pub open spec fn cap_line(c: CapInfo) -> Seq<char> {
    line(
        pad_right(decimal(c.slot as nat), 5) + " "@ + pad_right(cap_kind_name(c.object_type), 9)
            + " "@ + perm_text(c.can_read, "R"@) + perm_text(c.can_write, "W"@) + perm_text(
            c.can_grant,
            "G"@,
        ) + "    "@ + decimal(c.object_id as nat),
    )
}

pub open spec fn caps_lines(caps: Seq<CapInfo>) -> Seq<char>
    decreases caps.len(),
{
    if caps.len() == 0 {
        seq![]
    } else {
        caps_lines(caps.drop_last()) + cap_line(caps.last())
    }
}

/// The listing of capabilities.
pub open spec fn caps_text(caps: Seq<CapInfo>) -> Seq<char> {
    line("SLOT  TYPE      PERMS  OBJECT"@) + line("----  ----      -----  ------"@) + if caps.len()
        == 0 {
        line("(no capabilities)"@)
    } else {
        caps_lines(caps)
    }
}

/// The user-facing text of a capability error code.
pub open spec fn cap_error_text(code: u32) -> Seq<char> {
    if code == E_BADF {
        "Permission denied: capability has been revoked"@
    } else if code == E_PERM {
        "Permission denied: insufficient capability permissions"@
    } else if code == E_NOENT {
        "Resource not found: capability may have been revoked"@
    } else {
        "Operation failed (error code "@ + decimal(code as nat) + ")"@
    }
}

pub open spec fn grant_text(from_slot: u32, to_pid: u32, r: Result<u32, u32>) -> Seq<char> {
    match r {
        Ok(new_slot) => line(
            "Granted capability (slot "@ + decimal(from_slot as nat) + " -> PID "@ + decimal(
                to_pid as nat,
            ) + " at slot "@ + decimal(new_slot as nat) + ")"@,
        ),
        Err(e) => line("Error: "@ + cap_error_text(e)),
    }
}

pub open spec fn revoke_text(slot: u32, r: Result<(), u32>) -> Seq<char> {
    match r {
        Ok(()) => line("Deleted capability at slot "@ + decimal(slot as nat)),
        Err(e) => line("Error: "@ + cap_error_text(e)),
    }
}

/// "Uptime: {seconds}.{milliseconds, 3 digits}s".
pub open spec fn time_text(nanos: u64) -> Seq<char> {
    line(
        "Uptime: "@ + decimal((nanos / 1_000_000_000) as nat) + "."@ + pad_left(
            decimal(((nanos % 1_000_000_000) / 1_000_000) as nat),
            3,
            '0',
        ) + "s"@,
    )
}

/// The notice written when a capability is revoked.
pub open spec fn revoked_text(slot: u32, object_type: u8) -> Seq<char> {
    let name = match object_type_from_code(object_type) {
        Some(t) => object_type_name(t),
        None => "Unknown"@,
    };
    line(""@) + line(
        "\x1B[33mWarning: "@ + name + " capability (slot "@ + decimal(slot as nat)
            + ") was revoked\x1B[0m"@,
    ) + prompt()
}

/// What handling a line or special key `i` does to the terminal `s`: it
/// becomes `t` and asks for `r`.
pub open spec fn input_effect(s: TerminalAppView, i: TerminalInputView, t: TerminalAppView, r: RequestView) -> bool {
    match i.action {
        InputAction::Enter => if trim(i.text).len() > 0 {
            t == s.executed(trim(i.text)) && r == execute_effect(
                trim(i.text),
            ).1
        } else {
            t == s.written(prompt()) && r == RequestView::Nothing
        },
        InputAction::Interrupt => t == s.written(
            line("^C"@) + prompt(),
        ) && r == RequestView::Nothing,
        InputAction::Clear => t == s.written(clear_seq() + prompt())
            && r == RequestView::Nothing,
        InputAction::Up => r == RequestView::Nothing && if s.history_index > 0 {
            t == (TerminalAppView {
                history_index: s.history_index - 1,
                input_buffer: s.history[s.history_index - 1],
                ..s
            })
        } else {
            t == s
        },
        InputAction::Down => r == RequestView::Nothing && if s.history_index
            < s.history.len() {
            t == (TerminalAppView {
                history_index: s.history_index + 1,
                input_buffer: if s.history_index + 1 < s.history.len() {
                    s.history[s.history_index + 1]
                } else {
                    seq![]
                },
                ..s
            })
        } else {
            t == s
        },
        _ => t == s && r == RequestView::Nothing,
    }
}

/// What a raw console line `text` does to the terminal `s`: it becomes
/// `t` and asks for `r`.
pub open spec fn raw_effect(s: TerminalAppView, text: Seq<char>, t: TerminalAppView, r: RequestView) -> bool {
    if trim(text).len() > 0 {
        let e = s.executed(trim(text));
        r == execute_effect(trim(text)).1 && if needs_completion(r) {
            t == (TerminalAppView { prompt_pending: true, ..e })
        } else {
            t == e.written(prompt())
        }
    } else {
        t == s.written(prompt()) && r == RequestView::Nothing
    }
}

/// What a revocation notice `data` does to the terminal `s`: a notice of
/// at least 14 bytes writes the warning for its slot and object type;
/// a shorter one changes nothing.
pub open spec fn revoked_effect(s: TerminalAppView, data: Seq<u8>, t: TerminalAppView) -> bool {
    if data.len() >= 14 {
        t == s.written(revoked_text(le32_value(data[0], data[1], data[2], data[3]), data[4]))
    } else {
        t == s
    }
}

/// Terminal application state.
pub struct TerminalApp {
    output_buffer: String,
    history: Vec<String>,
    history_index: usize,
    input_buffer: String,
    initialized: bool,
    prompt_pending: bool,
}

/// The mathematical value of the terminal state.
pub struct TerminalAppView {
    /// Output not yet flushed
    pub output: Seq<char>,
    /// Executed command lines, oldest first
    pub history: Seq<Seq<char>>,
    /// Position in the history (its length when not navigating)
    pub history_index: int,
    /// Line recalled from the history
    pub input_buffer: Seq<char>,
    /// Whether the banner was written
    pub initialized: bool,
    /// Whether a prompt is due once the outstanding request completes
    pub prompt_pending: bool,
}

impl View for TerminalApp {
    type V = TerminalAppView;

    closed spec fn view(&self) -> TerminalAppView {
        TerminalAppView {
            output: self.output_buffer@,
            history: self.history@.map_values(|s: String| s@),
            history_index: self.history_index as int,
            input_buffer: self.input_buffer@,
            initialized: self.initialized,
            prompt_pending: self.prompt_pending,
        }
    }
}

impl TerminalAppView {
    /// The history position never passes the end of the history.
    pub open spec fn wf(self) -> bool {
        0 <= self.history_index <= self.history.len()
    }

    /// The state after writing `t`.
    pub open spec fn written(self, t: Seq<char>) -> TerminalAppView {
        TerminalAppView { output: self.output + t, ..self }
    }

    /// The state after a completion wrote `t`: the deferred prompt, if any,
    /// follows it.
    pub open spec fn completed(self, t: Seq<char>) -> TerminalAppView {
        TerminalAppView {
            output: self.output + t + if self.prompt_pending {
                prompt()
            } else {
                seq![]
            },
            prompt_pending: false,
            ..self
        }
    }

    /// The state after executing a non-empty line: it joins the history and
    /// the history position moves past it.
    pub open spec fn executed(self, l: Seq<char>) -> TerminalAppView {
        TerminalAppView {
            output: self.output + execute_effect(l).0,
            history: self.history.push(l),
            history_index: self.history.len() + 1int,
            ..self
        }
    }
}

impl TerminalApp {
    /// A fresh terminal: nothing written, empty history.
    pub fn new() -> (t: Self)
        ensures
            t@ == (TerminalAppView {
                output: seq![],
                history: seq![],
                history_index: 0,
                input_buffer: seq![],
                initialized: false,
                prompt_pending: false,
            }),
    {
        let t = TerminalApp {
            output_buffer: String::new(),
            history: Vec::new(),
            history_index: 0,
            input_buffer: String::new(),
            initialized: false,
            prompt_pending: false,
        };
        assert(t@.history =~= seq![]);
        t
    }

    /// Append text to the output buffer.
    pub fn print(&mut self, text: &str)
        ensures
            final(self)@ == old(self)@.written(text@),
    {
        push_str(&mut self.output_buffer, text);
    }

    /// Append a line to the output buffer.
    pub fn println(&mut self, text: &str)
        ensures
            final(self)@ == old(self)@.written(line(text@)),
    {
        self.print(text);
        self.print("\n");
        assert(self@.output =~= old(self)@.output + line(text@));
    }

    /// Take the buffered output for the console, leaving the buffer empty.
    pub fn flush_output(&mut self) -> (out: Option<String>)
        ensures
            old(self)@.output.len() == 0 ==> out is None,
            old(self)@.output.len() > 0 ==> out is Some && out->0@ == old(self)@.output,
            final(self)@ == (TerminalAppView { output: seq![], ..old(self)@ }),
    {
        if self.output_buffer.as_str().is_empty() {
            assert(self@.output =~= seq![]);
            return None;
        }
        let mut out = String::new();
        std::mem::swap(&mut out, &mut self.output_buffer);
        Some(out)
    }

    /// Write the banner and the prompt.
    pub fn init(&mut self)
        ensures
            final(self)@ == (TerminalAppView {
                output: old(self)@.output + line("Zero OS Terminal"@) + line(
                    "Type 'help' for available commands."@,
                ) + line(""@) + prompt(),
                initialized: true,
                ..old(self)@
            }),
    {
        self.println("Zero OS Terminal");
        self.println("Type 'help' for available commands.");
        self.println("");
        self.print("zero> ");
        self.initialized = true;
        assert(self@.output =~= old(self)@.output + line("Zero OS Terminal"@) + line(
            "Type 'help' for available commands."@,
        ) + line(""@) + prompt());
    }

    /// Execute a command line: write what it writes at once and return the
    /// request it needs.
    pub fn execute_command(&mut self, l: &str) -> (req: TerminalRequest)
        ensures
            final(self)@ == old(self)@.written(execute_effect(l@).0),
            req@ == execute_effect(l@).1,
    {
        match Command::parse(l) {
            Ok(cmd) => self.run_command(cmd),
            Err(e) => {
                match e {
                    ParseError::MissingArgument { command, argument } => {
                        self.print("Error: ");
                        self.print(command);
                        self.print(" requires ");
                        self.print(argument);
                        self.print("\n");
                    },
                    ParseError::InvalidArgument { argument, reason } => {
                        self.print("Error: ");
                        self.print(argument);
                        self.print(" ");
                        self.print(reason);
                        self.print("\n");
                    },
                }
                assert(self@.output =~= old(self)@.output + parse_error_text(e));
                TerminalRequest::Nothing
            },
        }
    }

    /// Run a parsed command.
    pub fn run_command(&mut self, cmd: Command) -> (req: TerminalRequest)
        ensures
            final(self)@ == old(self)@.written(command_effect(cmd@).0),
            req@ == command_effect(cmd@).1,
    {
        match cmd {
            Command::Help => {
                self.cmd_help();
                TerminalRequest::Nothing
            },
            Command::Ps => {
                assert(self@.output =~= self@.output + seq![]);
                TerminalRequest::ListProcesses
            },
            Command::Caps => {
                assert(self@.output =~= self@.output + seq![]);
                TerminalRequest::ListCaps
            },
            Command::Spawn { process_type } => self.cmd_spawn(process_type),
            Command::Kill { pid } => {
                self.cmd_kill(pid);
                TerminalRequest::Nothing
            },
            Command::Grant { from_slot, to_pid, permissions } => {
                assert(self@.output =~= self@.output + seq![]);
                TerminalRequest::Grant { from_slot, to_pid, permissions }
            },
            Command::Revoke { slot } => {
                assert(self@.output =~= self@.output + seq![]);
                TerminalRequest::Revoke { slot }
            },
            Command::Echo { text } => {
                self.cmd_echo(text.as_str());
                TerminalRequest::Nothing
            },
            Command::Time => {
                assert(self@.output =~= self@.output + seq![]);
                TerminalRequest::Time
            },
            Command::Clear => {
                self.cmd_clear();
                TerminalRequest::Nothing
            },
            Command::Exit => self.cmd_exit(),
            Command::Unknown { cmd } => {
                if cmd.as_str().is_empty() {
                    assert(self@.output =~= self@.output + seq![]);
                } else {
                    self.print("Unknown command: ");
                    self.print(cmd.as_str());
                    self.print("\n");
                    self.println("Type 'help' for available commands.");
                    assert(self@.output =~= old(self)@.output + command_effect(
                        CommandView::Unknown { cmd: cmd@ },
                    ).0);
                }
                TerminalRequest::Nothing
            },
        }
    }

    /// Write the help text.
    pub fn cmd_help(&mut self)
        ensures
            final(self)@ == old(self)@.written(help_text()),
    {
        self.println("=== Zero Terminal (userspace shell) ===");
        self.println("");
        self.println("Process Management:");
        self.println("  ps                - List running processes");
        self.println("  spawn <type>      - Request process spawn");
        self.println("  kill <pid>        - Request process termination");
        self.println("");
        self.println("Capabilities:");
        self.println("  caps              - List my capabilities");
        self.println("  grant <slot> <pid> <perms> - Grant capability");
        self.println("  revoke <slot>     - Revoke own capability");
        self.println("");
        self.println("System:");
        self.println("  echo <text>       - Echo text");
        self.println("  time              - Show system uptime");
        self.println("  clear             - Clear the screen");
        self.println("  exit              - Exit the terminal");
        assert(self@.output =~= old(self)@.output + help_text());
    }

    /// Announce a spawn request; the host passes it to init.
    pub fn cmd_spawn(&mut self, process_type: String) -> (req: TerminalRequest)
        ensures
            final(self)@ == old(self)@.written(
                line("Requested spawn of '"@ + process_type@ + "'..."@),
            ),
            req@ == (RequestView::Spawn { process_type: process_type@ }),
    {
        self.print("Requested spawn of '");
        self.print(process_type.as_str());
        self.print("'...");
        self.print("\n");
        assert(self@.output =~= old(self)@.output + line(
            "Requested spawn of '"@ + process_type@ + "'..."@,
        ));
        TerminalRequest::Spawn { process_type }
    }

    /// Report that killing needs supervisor privilege.
    pub fn cmd_kill(&mut self, pid: u32)
        ensures
            final(self)@ == old(self)@.written(
                line("Error: Kill requires supervisor privilege"@) + line(
                    "(Terminal cannot directly kill processes yet)"@,
                ),
            ),
    {
        self.println("Error: Kill requires supervisor privilege");
        self.println("(Terminal cannot directly kill processes yet)");
        assert(self@.output =~= old(self)@.output + (line(
            "Error: Kill requires supervisor privilege"@,
        ) + line("(Terminal cannot directly kill processes yet)"@)));
    }

    /// Echo text.
    pub fn cmd_echo(&mut self, text: &str)
        ensures
            final(self)@ == old(self)@.written(line(text@)),
    {
        self.println(text);
    }

    /// Clear the screen.
    pub fn cmd_clear(&mut self)
        ensures
            final(self)@ == old(self)@.written(clear_seq()),
    {
        self.print("\x1B[2J\x1B[H");
    }

    /// Say goodbye; the host then exits with code 0.
    pub fn cmd_exit(&mut self) -> (req: TerminalRequest)
        ensures
            final(self)@ == old(self)@.written(line("Goodbye!"@)),
            req@ == RequestView::Exit,
    {
        self.println("Goodbye!");
        TerminalRequest::Exit
    }

    fn finish_completion(&mut self)
        ensures
            final(self)@ == (TerminalAppView {
                output: old(self)@.output + if old(self)@.prompt_pending {
                    prompt()
                } else {
                    seq![]
                },
                prompt_pending: false,
                ..old(self)@
            }),
    {
        if self.prompt_pending {
            self.print("zero> ");
            self.prompt_pending = false;
        } else {
            assert(self@.output =~= self@.output + seq![]);
        }
    }

    fn write_ps_line(&mut self, p: &ProcessInfo)
        ensures
            final(self)@ == old(self)@.written(
                line(
                    pad_right(decimal(p.pid as nat), 4) + " "@ + pad_right(state_name(p.state), 8)
                        + " "@ + p.name@,
                ),
            ),
    {
        let pid = crate::words::decimal_chars(p.pid as u128);
        push_padded_right(&mut self.output_buffer, pid.as_slice(), 4);
        self.print(" ");
        let state = if p.state == 0 {
            "Running"
        } else if p.state == 1 {
            "Blocked"
        } else if p.state == 2 {
            "Zombie"
        } else {
            "???"
        };
        let sc = chars_of(state);
        push_padded_right(&mut self.output_buffer, sc.as_slice(), 8);
        self.print(" ");
        self.print(p.name.as_str());
        self.print("\n");
        assert(self@.output =~= old(self)@.output + line(
            pad_right(decimal(p.pid as nat), 4) + " "@ + pad_right(state_name(p.state), 8) + " "@
                + p.name@,
        ));
    }

    /// Write the process listing the host obtained.
    pub fn cmd_ps(&mut self, procs: &[ProcessInfo])
        ensures
            final(self)@ == old(self)@.completed(
                ps_text(procs@.map_values(|p: ProcessInfo| (p.pid, p.name@, p.state))),
            ),
    {
        let ghost ps = procs@.map_values(|p: ProcessInfo| (p.pid, p.name@, p.state));
        self.println("PID  STATE    NAME");
        self.println("---  -----    ----");
        let ghost mid = self@.output;
        if procs.len() == 0 {
            self.println("(no process data available)");
        } else {
            let mut i: usize = 0;
            while i < procs.len()
                invariant
                    i <= procs@.len(),
                    ps == procs@.map_values(|p: ProcessInfo| (p.pid, p.name@, p.state)),
                    self@ == (TerminalAppView { output: mid + ps_lines(ps.take(i as int)), ..old(self)@ }),
                decreases procs@.len() - i,
            {
                self.write_ps_line(&procs[i]);
                proof {
                    assert(ps.take(i + 1).drop_last() =~= ps.take(i as int));
                    assert(ps.take(i + 1).last() == ps[i as int]);
                }
                i = i + 1;
                assert(self@.output =~= mid + ps_lines(ps.take(i as int)));
            }
            assert(ps.take(procs@.len() as int) =~= ps);
        }
        assert(self@.output =~= old(self)@.output + ps_text(ps));
        self.finish_completion();
    }

    fn write_cap_type(&mut self, t: u8)
        ensures
            final(self)@ == old(self)@.written(pad_right(cap_kind_name(t), 9)),
    {
        let kind = match ObjectType::from_u8(t) {
            Some(k) => k.name(),
            None => "???",
        };
        let tc = chars_of(kind);
        push_padded_right(&mut self.output_buffer, tc.as_slice(), 9);
    }

    fn write_perms(&mut self, c: &CapInfo)
        ensures
            final(self)@ == old(self)@.written(
                perm_text(c.can_read, "R"@) + perm_text(c.can_write, "W"@) + perm_text(
                    c.can_grant,
                    "G"@,
                ),
            ),
    {
        self.print(if c.can_read { "R" } else { "-" });
        self.print(if c.can_write { "W" } else { "-" });
        self.print(if c.can_grant { "G" } else { "-" });
        assert(self@.output =~= old(self)@.output + (perm_text(c.can_read, "R"@) + perm_text(
            c.can_write,
            "W"@,
        ) + perm_text(c.can_grant, "G"@)));
    }

    fn write_cap_line(&mut self, c: &CapInfo)
        ensures
            final(self)@ == old(self)@.written(cap_line(*c)),
    {
        let slot = crate::words::decimal_chars(c.slot as u128);
        push_padded_right(&mut self.output_buffer, slot.as_slice(), 5);
        self.print(" ");
        self.write_cap_type(c.object_type);
        self.print(" ");
        self.write_perms(c);
        self.print("    ");
        push_decimal(&mut self.output_buffer, c.object_id as u128);
        self.print("\n");
        let ghost a = pad_right(decimal(c.slot as nat), 5);
        let ghost b = pad_right(cap_kind_name(c.object_type), 9);
        let ghost p = perm_text(c.can_read, "R"@) + perm_text(c.can_write, "W"@) + perm_text(
            c.can_grant,
            "G"@,
        );
        let ghost d = decimal(c.object_id as nat);
        assert(self@.output =~= old(self)@.output + (a + " "@ + b + " "@ + p + "    "@ + d + "\n"@));
        assert(cap_line(*c) =~= a + " "@ + b + " "@ + p + "    "@ + d + "\n"@);
    }

    /// Write the capability listing the host obtained.
    pub fn cmd_caps(&mut self, caps: &[CapInfo])
        ensures
            final(self)@ == old(self)@.completed(caps_text(caps@)),
    {
        self.println("SLOT  TYPE      PERMS  OBJECT");
        self.println("----  ----      -----  ------");
        let ghost mid = self@.output;
        if caps.len() == 0 {
            self.println("(no capabilities)");
        } else {
            let mut i: usize = 0;
            while i < caps.len()
                invariant
                    i <= caps@.len(),
                    self@ == (TerminalAppView {
                        output: mid + caps_lines(caps@.take(i as int)),
                        ..old(self)@
                    }),
                decreases caps@.len() - i,
            {
                self.write_cap_line(&caps[i]);
                proof {
                    assert(caps@.take(i + 1).drop_last() =~= caps@.take(i as int));
                }
                i = i + 1;
                assert(self@.output =~= mid + caps_lines(caps@.take(i as int)));
            }
            assert(caps@.take(caps@.len() as int) =~= caps@);
        }
        assert(self@.output =~= old(self)@.output + caps_text(caps@));
        self.finish_completion();
    }

    fn write_cap_error(&mut self, code: u32)
        ensures
            final(self)@ == old(self)@.written(cap_error_text(code)),
    {
        if code == E_BADF {
            self.print("Permission denied: capability has been revoked");
        } else if code == E_PERM {
            self.print("Permission denied: insufficient capability permissions");
        } else if code == E_NOENT {
            self.print("Resource not found: capability may have been revoked");
        } else {
            self.print("Operation failed (error code ");
            push_decimal(&mut self.output_buffer, code as u128);
            self.print(")");
            assert(self@.output =~= old(self)@.output + cap_error_text(code));
        }
    }

    /// The user-facing text of a capability error code.
    pub fn format_cap_error(&self, code: u32) -> (s: String)
        ensures
            s@ == cap_error_text(code),
    {
        let mut t = TerminalApp::new();
        t.write_cap_error(code);
        assert(t@.output =~= cap_error_text(code));
        t.output_buffer
    }

    /// Write the outcome of a grant the host performed.
    pub fn cmd_grant(&mut self, from_slot: u32, to_pid: u32, result: Result<u32, u32>)
        ensures
            final(self)@ == old(self)@.completed(grant_text(from_slot, to_pid, result)),
    {
        match result {
            Ok(new_slot) => {
                self.print("Granted capability (slot ");
                push_decimal(&mut self.output_buffer, from_slot as u128);
                self.print(" -> PID ");
                push_decimal(&mut self.output_buffer, to_pid as u128);
                self.print(" at slot ");
                push_decimal(&mut self.output_buffer, new_slot as u128);
                self.print(")");
                self.print("\n");
            },
            Err(e) => {
                self.print("Error: ");
                self.write_cap_error(e);
                self.print("\n");
            },
        }
        assert(self@.output =~= old(self)@.output + grant_text(from_slot, to_pid, result));
        self.finish_completion();
    }

    /// Write the outcome of a revocation the host performed.
    pub fn cmd_revoke(&mut self, slot: u32, result: Result<(), u32>)
        ensures
            final(self)@ == old(self)@.completed(revoke_text(slot, result)),
    {
        match result {
            Ok(()) => {
                self.print("Deleted capability at slot ");
                push_decimal(&mut self.output_buffer, slot as u128);
                self.print("\n");
            },
            Err(e) => {
                self.print("Error: ");
                self.write_cap_error(e);
                self.print("\n");
            },
        }
        assert(self@.output =~= old(self)@.output + revoke_text(slot, result));
        self.finish_completion();
    }

    /// Write the uptime the host read, in nanoseconds.
    pub fn cmd_time(&mut self, nanos: u64)
        ensures
            final(self)@ == old(self)@.completed(time_text(nanos)),
    {
        let secs = nanos / 1_000_000_000;
        let ms = (nanos % 1_000_000_000) / 1_000_000;
        self.print("Uptime: ");
        push_decimal(&mut self.output_buffer, secs as u128);
        self.print(".");
        let msc = crate::words::decimal_chars(ms as u128);
        push_padded_left(&mut self.output_buffer, msc.as_slice(), 3, '0');
        self.print("s");
        self.print("\n");
        assert(self@.output =~= old(self)@.output + time_text(nanos));
        self.finish_completion();
    }

    /// Handle user input: a complete line or a special action.
    pub fn handle_input(&mut self, input: &TerminalInput) -> (req: TerminalRequest)
        requires
            old(self)@.wf(),
        ensures
            final(self)@.wf(),
            input_effect(old(self)@, input@, final(self)@, req@),
    {
        match input.action {
            InputAction::Enter => {
                let l = trim_str(input.text.as_str());
                if !l.as_str().is_empty() {
                    self.record_history(&l);
                    self.execute_command(l.as_str())
                } else {
                    self.print("zero> ");
                    TerminalRequest::Nothing
                }
            },
            InputAction::Interrupt => {
                self.println("^C");
                self.print("zero> ");
                assert(self@.output =~= old(self)@.output + (line("^C"@) + prompt()));
                TerminalRequest::Nothing
            },
            InputAction::Clear => {
                self.print("\x1B[2J\x1B[H");
                self.print("zero> ");
                assert(self@.output =~= old(self)@.output + (clear_seq() + prompt()));
                TerminalRequest::Nothing
            },
            InputAction::Up => {
                if self.history_index > 0 {
                    self.history_index = self.history_index - 1;
                    self.input_buffer = string_from(self.history[self.history_index].as_str());
                }
                TerminalRequest::Nothing
            },
            InputAction::Down => {
                if self.history_index < self.history.len() {
                    self.history_index = self.history_index + 1;
                    if self.history_index < self.history.len() {
                        self.input_buffer = string_from(self.history[self.history_index].as_str());
                    } else {
                        self.input_buffer = String::new();
                    }
                }
                TerminalRequest::Nothing
            },
            _ => TerminalRequest::Nothing,
        }
    }

    fn record_history(&mut self, l: &String)
        ensures
            final(self)@ == (TerminalAppView {
                history: old(self)@.history.push(l@),
                history_index: old(self)@.history.len() + 1int,
                ..old(self)@
            }),
    {
        self.history.push(string_from(l.as_str()));
        self.history_index = self.history.len();
        assert(self@.history =~= old(self)@.history.push(l@));
    }

    /// Handle raw console input: execute the trimmed line, if any, and
    /// prompt again. When the line needs a request completed, the prompt
    /// follows the completion's output.
    pub fn handle_raw_input(&mut self, text: &str) -> (req: TerminalRequest)
        requires
            old(self)@.wf(),
        ensures
            final(self)@.wf(),
            raw_effect(old(self)@, text@, final(self)@, req@),
    {
        let l = trim_str(text);
        if !l.as_str().is_empty() {
            self.record_history(&l);
            let req = self.execute_command(l.as_str());
            match req {
                TerminalRequest::ListProcesses | TerminalRequest::ListCaps
                | TerminalRequest::Grant { .. } | TerminalRequest::Revoke { .. }
                | TerminalRequest::Time => {
                    self.prompt_pending = true;
                },
                _ => {
                    self.print("zero> ");
                },
            }
            req
        } else {
            self.print("zero> ");
            TerminalRequest::Nothing
        }
    }

    /// Handle a capability revocation notice: slot (u32 LE) and object type
    /// in the first bytes of a notice of at least 14 bytes.
    pub fn handle_cap_revoked(&mut self, data: &[u8])
        ensures
            revoked_effect(old(self)@, data@, final(self)@),
    {
        if data.len() >= 14 {
            let slot: u32 = (data[0] as u32) + 256 * (data[1] as u32) + 65536 * (data[2] as u32)
                + 16777216 * (data[3] as u32);
            let kind_name = match ObjectType::from_u8(data[4]) {
                Some(t) => t.name(),
                None => "Unknown",
            };
            self.println("");
            self.print("\x1B[33mWarning: ");
            self.print(kind_name);
            self.print(" capability (slot ");
            push_decimal(&mut self.output_buffer, slot as u128);
            self.print(") was revoked\x1B[0m");
            self.print("\n");
            self.print("zero> ");
            assert(self@.output =~= old(self)@.output + revoked_text(slot, data@[4]));
        }
    }

    /// Dispatch a message: app-protocol input, raw console input or a
    /// revocation notice; anything else is ignored.
    pub fn on_message(&mut self, tag: u32, data: &[u8]) -> (req: TerminalRequest)
        requires
            old(self)@.wf(),
        ensures
            final(self)@.wf(),
            tag == MSG_APP_INPUT ==> match terminal_input_from_bytes(data@) {
                Ok(i) => input_effect(old(self)@, i, final(self)@, req@),
                Err(_) => final(self)@ == old(self)@ && req@ == RequestView::Nothing,
            },
            tag == MSG_CONSOLE_INPUT ==> if vstd::utf8::valid_utf8(data@) {
                raw_effect(old(self)@, vstd::utf8::decode_utf8(data@), final(self)@, req@)
            } else {
                final(self)@ == old(self)@ && req@ == RequestView::Nothing
            },
            tag == MSG_CAP_REVOKED ==> revoked_effect(old(self)@, data@, final(self)@) && req@
                == RequestView::Nothing,
            tag != MSG_APP_INPUT && tag != MSG_CONSOLE_INPUT && tag != MSG_CAP_REVOKED
                ==> final(self)@ == old(self)@ && req@ == RequestView::Nothing,
    {
        if tag == MSG_APP_INPUT {
            match TerminalInput::from_bytes(data) {
                Ok(input) => return self.handle_input(&input),
                Err(_) => {},
            }
        }
        if tag == MSG_CONSOLE_INPUT {
            let v = crate::wire::copy_range(data, 0, data.len());
            assert(v@ =~= data@);
            match string_from_utf8(v) {
                Some(text) => return self.handle_raw_input(text.as_str()),
                None => {},
            }
        }
        if tag == MSG_CAP_REVOKED {
            self.handle_cap_revoked(data);
        }
        TerminalRequest::Nothing
    }
}

/// The process listing names each process by the kernel's name for its
/// state: a process whose state code is that of a kernel state is listed
/// under that state's name, and an unknown code as "???"; each process
/// adds one row, after those before it.
pub proof fn lemma_ps_rows_name_kernel_states(
    procs: Seq<(u32, Seq<char>, u8)>,
    pid: u32,
    name: Seq<char>,
    code: u8,
)
    ensures
        forall|s: crate::kernel_shell::ProcState|
            #[trigger] crate::kernel_shell::state_code(s) == code ==> ps_lines(procs.push((pid, name, code)))
                == ps_lines(procs) + line(
                pad_right(decimal(pid as nat), 4) + " "@ + pad_right(crate::kernel_shell::state_name(s), 8)
                    + " "@ + name,
            ),
        code >= 3 ==> ps_lines(procs.push((pid, name, code))) == ps_lines(procs) + line(
            pad_right(decimal(pid as nat), 4) + " "@ + pad_right("???"@, 8) + " "@ + name,
        ),
{
    assert(procs.push((pid, name, code)).drop_last() =~= procs);
}

} // verus!
