//! Terminal command language: a command line is split into whitespace
//! separated words; the first selects the command, the rest are its
//! arguments.

use vstd::prelude::*;

use crate::manifest::Permissions;
use crate::text::{chars_of, string_from_chars};
use crate::words::{
    chars_eq_str, contains_char, join_from, join_words, parse_u32, parse_u32_spec,
    split_whitespace, words,
};

verus! {

/// Parsed terminal command.
#[derive(Clone, Debug, PartialEq, Eq)]
pub enum Command {
    /// Display help information
    Help,
    /// List running processes
    Ps,
    /// List capabilities
    Caps,
    /// Request spawning a new process
    Spawn { process_type: String },
    /// Request killing a process
    Kill { pid: u32 },
    /// Grant a capability to another process
    Grant { from_slot: u32, to_pid: u32, permissions: Permissions },
    /// Revoke (delete) a capability
    Revoke { slot: u32 },
    /// Echo text back
    Echo { text: String },
    /// Show system uptime
    Time,
    /// Clear the screen
    Clear,
    /// Exit the terminal
    Exit,
    /// Unrecognized command (empty for an empty line)
    Unknown { cmd: String },
}

/// The mathematical value of a command.
pub enum CommandView {
    Help,
    Ps,
    Caps,
    Spawn { process_type: Seq<char> },
    Kill { pid: u32 },
    Grant { from_slot: u32, to_pid: u32, permissions: Permissions },
    Revoke { slot: u32 },
    Echo { text: Seq<char> },
    Time,
    Clear,
    Exit,
    Unknown { cmd: Seq<char> },
}

impl View for Command {
    type V = CommandView;

    open spec fn view(&self) -> CommandView {
        match self {
            Command::Help => CommandView::Help,
            Command::Ps => CommandView::Ps,
            Command::Caps => CommandView::Caps,
            Command::Spawn { process_type } => CommandView::Spawn {
                process_type: process_type@,
            },
            Command::Kill { pid } => CommandView::Kill { pid: *pid },
            Command::Grant { from_slot, to_pid, permissions } => CommandView::Grant {
                from_slot: *from_slot,
                to_pid: *to_pid,
                permissions: *permissions,
            },
            Command::Revoke { slot } => CommandView::Revoke { slot: *slot },
            Command::Echo { text } => CommandView::Echo { text: text@ },
            Command::Time => CommandView::Time,
            Command::Clear => CommandView::Clear,
            Command::Exit => CommandView::Exit,
            Command::Unknown { cmd } => CommandView::Unknown { cmd: cmd@ },
        }
    }
}

/// Error returned when parsing a command fails.
#[derive(Clone, Copy, Debug, PartialEq, Eq)]
pub enum ParseError {
    /// The command requires an argument that was not given
    MissingArgument { command: &'static str, argument: &'static str },
    /// An argument could not be parsed as the expected type
    InvalidArgument { argument: &'static str, reason: &'static str },
}

/// Parsing a numeric argument.
pub open spec fn number_arg(
    arg: Seq<char>,
    name: &'static str,
) -> Result<u32, ParseError> {
    match parse_u32_spec(arg) {
        Some(v) => Ok(v),
        None => Err(ParseError::InvalidArgument { argument: name, reason: "must be a number" }),
    }
}

/// The command a line denotes.
pub open spec fn parse_spec(line: Seq<char>) -> Result<CommandView, ParseError> {
    let ws = words(line);
    if ws.len() == 0 {
        Ok(CommandView::Unknown { cmd: seq![] })
    } else {
        let cmd = ws[0];
        let args = ws.drop_first();
        if cmd == "help"@ || cmd == "?"@ {
            Ok(CommandView::Help)
        } else if cmd == "ps"@ {
            Ok(CommandView::Ps)
        } else if cmd == "caps"@ {
            Ok(CommandView::Caps)
        } else if cmd == "spawn"@ {
            if args.len() == 0 {
                Err(ParseError::MissingArgument { command: "spawn", argument: "process_type" })
            } else {
                Ok(CommandView::Spawn { process_type: args[0] })
            }
        } else if cmd == "kill"@ {
            if args.len() == 0 {
                Err(ParseError::MissingArgument { command: "kill", argument: "pid" })
            } else {
                match number_arg(args[0], "pid") {
                    Ok(pid) => Ok(CommandView::Kill { pid }),
                    Err(e) => Err(e),
                }
            }
        } else if cmd == "grant"@ {
            if args.len() < 3 {
                Err(
                    ParseError::MissingArgument {
                        command: "grant",
                        argument: "from_slot, to_pid, perms",
                    },
                )
            } else {
                match number_arg(args[0], "from_slot") {
                    Err(e) => Err(e),
                    Ok(from_slot) => match number_arg(args[1], "to_pid") {
                        Err(e) => Err(e),
                        Ok(to_pid) => Ok(
                            CommandView::Grant {
                                from_slot,
                                to_pid,
                                permissions: Permissions {
                                    read: args[2].contains('r'),
                                    write: args[2].contains('w'),
                                    grant: args[2].contains('g'),
                                },
                            },
                        ),
                    },
                }
            }
        } else if cmd == "revoke"@ {
            if args.len() == 0 {
                Err(ParseError::MissingArgument { command: "revoke", argument: "slot" })
            } else {
                match number_arg(args[0], "slot") {
                    Ok(slot) => Ok(CommandView::Revoke { slot }),
                    Err(e) => Err(e),
                }
            }
        } else if cmd == "echo"@ {
            Ok(CommandView::Echo { text: join_words(args) })
        } else if cmd == "time"@ || cmd == "uptime"@ {
            Ok(CommandView::Time)
        } else if cmd == "clear"@ || cmd == "cls"@ {
            Ok(CommandView::Clear)
        } else if cmd == "exit"@ || cmd == "quit"@ {
            Ok(CommandView::Exit)
        } else {
            Ok(CommandView::Unknown { cmd })
        }
    }
}

pub open spec fn parse_result_view(r: Result<Command, ParseError>) -> Result<
    CommandView,
    ParseError,
> {
    match r {
        Ok(c) => Ok(c@),
        Err(e) => Err(e),
    }
}

/// The usage line of a command.
pub open spec fn usage_spec(c: CommandView) -> Seq<char> {
    match c {
        CommandView::Help => "help - Display available commands"@,
        CommandView::Ps => "ps - List running processes"@,
        CommandView::Caps => "caps - List capabilities"@,
        CommandView::Spawn { .. } => "spawn <process_type> - Request process spawn"@,
        CommandView::Kill { .. } => "kill <pid> - Request process termination"@,
        CommandView::Grant { .. } => "grant <slot> <pid> <perms> - Grant capability (perms: r/w/g)"@,
        CommandView::Revoke { .. } => "revoke <slot> - Revoke capability"@,
        CommandView::Echo { .. } => "echo <text> - Echo text"@,
        CommandView::Time => "time - Show system uptime"@,
        CommandView::Clear => "clear - Clear the screen"@,
        CommandView::Exit => "exit - Exit the terminal"@,
        CommandView::Unknown { .. } => "Unknown command"@,
    }
}

fn number_argument(arg: &Vec<char>, name: &'static str) -> (r: Result<u32, ParseError>)
    ensures
        r == number_arg(arg@, name),
{
    match parse_u32(arg.as_slice()) {
        Some(v) => Ok(v),
        None => Err(ParseError::InvalidArgument { argument: name, reason: "must be a number" }),
    }
}

impl Command {
    /// Parse a command line.
    pub fn parse(line: &str) -> (r: Result<Self, ParseError>)
        ensures
            parse_result_view(r) == parse_spec(line@),
    {
        let cs = chars_of(line);
        let ws = split_whitespace(cs.as_slice());
        let ghost w = words(line@);
        assert(ws@.map_values(|v: Vec<char>| v@) =~= w);
        if ws.len() == 0 {
            return Ok(Command::Unknown { cmd: String::new() });
        }
        assert(w.drop_first() =~= ws@.map_values(|v: Vec<char>| v@).skip(1));
        let cmd = &ws[0];
        let nargs = ws.len() - 1;
        proof {
            if nargs > 0 {
                assert(w.drop_first()[0] == ws@[1]@);
            }
            if nargs > 1 {
                assert(w.drop_first()[1] == ws@[2]@);
            }
            if nargs > 2 {
                assert(w.drop_first()[2] == ws@[3]@);
            }
        }
        if chars_eq_str(cmd, "help") || chars_eq_str(cmd, "?") {
            Ok(Command::Help)
        } else if chars_eq_str(cmd, "ps") {
            Ok(Command::Ps)
        } else if chars_eq_str(cmd, "caps") {
            Ok(Command::Caps)
        } else if chars_eq_str(cmd, "spawn") {
            if nargs == 0 {
                Err(ParseError::MissingArgument { command: "spawn", argument: "process_type" })
            } else {
                Ok(Command::Spawn { process_type: string_from_chars(ws[1].as_slice()) })
            }
        } else if chars_eq_str(cmd, "kill") {
            if nargs == 0 {
                Err(ParseError::MissingArgument { command: "kill", argument: "pid" })
            } else {
                match number_argument(&ws[1], "pid") {
                    Ok(pid) => Ok(Command::Kill { pid }),
                    Err(e) => Err(e),
                }
            }
        } else if chars_eq_str(cmd, "grant") {
            if nargs < 3 {
                return Err(
                    ParseError::MissingArgument {
                        command: "grant",
                        argument: "from_slot, to_pid, perms",
                    },
                );
            }
            let from_slot = match number_argument(&ws[1], "from_slot") {
                Ok(v) => v,
                Err(e) => return Err(e),
            };
            let to_pid = match number_argument(&ws[2], "to_pid") {
                Ok(v) => v,
                Err(e) => return Err(e),
            };
            let perms = ws[3].as_slice();
            let permissions = Permissions {
                read: contains_char(perms, 'r'),
                write: contains_char(perms, 'w'),
                grant: contains_char(perms, 'g'),
            };
            Ok(Command::Grant { from_slot, to_pid, permissions })
        } else if chars_eq_str(cmd, "revoke") {
            if nargs == 0 {
                Err(ParseError::MissingArgument { command: "revoke", argument: "slot" })
            } else {
                match number_argument(&ws[1], "slot") {
                    Ok(slot) => Ok(Command::Revoke { slot }),
                    Err(e) => Err(e),
                }
            }
        } else if chars_eq_str(cmd, "echo") {
            Ok(Command::Echo { text: join_from(&ws, 1) })
        } else if chars_eq_str(cmd, "time") || chars_eq_str(cmd, "uptime") {
            Ok(Command::Time)
        } else if chars_eq_str(cmd, "clear") || chars_eq_str(cmd, "cls") {
            Ok(Command::Clear)
        } else if chars_eq_str(cmd, "exit") || chars_eq_str(cmd, "quit") {
            Ok(Command::Exit)
        } else {
            Ok(Command::Unknown { cmd: string_from_chars(cmd.as_slice()) })
        }
    }

    /// A usage message for this command.
    pub fn usage(&self) -> (s: &'static str)
        ensures
            s@ == usage_spec(self@),
    {
        match self {
            Command::Help => "help - Display available commands",
            Command::Ps => "ps - List running processes",
            Command::Caps => "caps - List capabilities",
            Command::Spawn { .. } => "spawn <process_type> - Request process spawn",
            Command::Kill { .. } => "kill <pid> - Request process termination",
            Command::Grant { .. } => "grant <slot> <pid> <perms> - Grant capability (perms: r/w/g)",
            Command::Revoke { .. } => "revoke <slot> - Revoke capability",
            Command::Echo { .. } => "echo <text> - Echo text",
            Command::Time => "time - Show system uptime",
            Command::Clear => "clear - Clear the screen",
            Command::Exit => "exit - Exit the terminal",
            Command::Unknown { .. } => "Unknown command",
        }
    }
}

/// A parsed grant carries exactly the permissions its third argument
/// names: read when it holds an 'r', write when it holds a 'w', grant when
/// it holds a 'g', whatever else it holds.
pub proof fn lemma_grant_permissions_named(line: Seq<char>)
    ensures
        parse_spec(line) matches Ok(CommandView::Grant { permissions, .. }) ==> {
            let perms = words(line)[3];
            &&& permissions.read <==> perms.contains('r')
            &&& permissions.write <==> perms.contains('w')
            &&& permissions.grant <==> perms.contains('g')
        },
{
}

} // verus!
