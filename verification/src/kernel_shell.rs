//! The supervisor's kernel test shell: what a typed line asks for. Each
//! line either writes text at once (help, usage, argument errors) or names
//! the kernel work to do, with its arguments parsed and checked; the host
//! does the work and writes what it found. The texts of the outcomes that
//! need only plain values are built here too.

use vstd::prelude::*;

use crate::text::{chars_of, decimal, push_decimal, push_str, string_from, string_from_chars};
use crate::words::{
    join_from, join_words, parse_u32, parse_u32_spec, parse_u64, parse_u64_spec, parse_usize,
    parse_usize_spec, split_whitespace, words,
};

verus! {

/// The shell's prompt.
pub open spec fn shell_prompt() -> Seq<char> {
    "orbital> "@
}

/// Kernel work a line asks for.
#[derive(Clone, Debug, PartialEq, Eq)]
pub enum ShellRequest {
    ListProcesses,
    Spawn { process_type: String, name: String },
    Kill { pid: u64 },
    Inspect { pid: u64 },
    MemStat,
    Alloc { pid: u64, bytes: usize },
    Free { pid: u64, bytes: usize },
    Endpoints,
    Queue { endpoint_id: u64 },
    IpcStat,
    IpcLog { count: usize },
    Status,
    PingPong { iterations: u32 },
    Burst { sender: u64, receiver: u64, count: usize, size: usize },
    Ping { pinger: u64, ponger: u64, iterations: i32 },
    Send { to_pid: u64, message: String },
    Caps,
    Uptime,
    DateTime,
    Grant { from_pid: u64, to_pid: u64, slot: u32, read: bool, write: bool, grant: bool },
    PingTest { pinger: u64, ponger: u64, iterations: usize },
    WorkerInfo { pid: u64 },
    Exit,
}

/// A request with its texts taken by view.
pub enum ShellRequestView {
    ListProcesses,
    Spawn { process_type: Seq<char>, name: Seq<char> },
    Kill { pid: u64 },
    Inspect { pid: u64 },
    MemStat,
    Alloc { pid: u64, bytes: usize },
    Free { pid: u64, bytes: usize },
    Endpoints,
    Queue { endpoint_id: u64 },
    IpcStat,
    IpcLog { count: usize },
    Status,
    PingPong { iterations: u32 },
    Burst { sender: u64, receiver: u64, count: usize, size: usize },
    Ping { pinger: u64, ponger: u64, iterations: i32 },
    Send { to_pid: u64, message: Seq<char> },
    Caps,
    Uptime,
    DateTime,
    Grant { from_pid: u64, to_pid: u64, slot: u32, read: bool, write: bool, grant: bool },
    PingTest { pinger: u64, ponger: u64, iterations: usize },
    WorkerInfo { pid: u64 },
    Exit,
}

impl View for ShellRequest {
    type V = ShellRequestView;

    open spec fn view(&self) -> ShellRequestView {
        match self {
            ShellRequest::ListProcesses => ShellRequestView::ListProcesses,
            ShellRequest::Spawn { process_type, name } => ShellRequestView::Spawn {
                process_type: process_type@,
                name: name@,
            },
            ShellRequest::Kill { pid } => ShellRequestView::Kill { pid: *pid },
            ShellRequest::Inspect { pid } => ShellRequestView::Inspect { pid: *pid },
            ShellRequest::MemStat => ShellRequestView::MemStat,
            ShellRequest::Alloc { pid, bytes } => ShellRequestView::Alloc { pid: *pid, bytes: *bytes },
            ShellRequest::Free { pid, bytes } => ShellRequestView::Free { pid: *pid, bytes: *bytes },
            ShellRequest::Endpoints => ShellRequestView::Endpoints,
            ShellRequest::Queue { endpoint_id } => ShellRequestView::Queue { endpoint_id: *endpoint_id },
            ShellRequest::IpcStat => ShellRequestView::IpcStat,
            ShellRequest::IpcLog { count } => ShellRequestView::IpcLog { count: *count },
            ShellRequest::Status => ShellRequestView::Status,
            ShellRequest::PingPong { iterations } => ShellRequestView::PingPong {
                iterations: *iterations,
            },
            ShellRequest::Burst { sender, receiver, count, size } => ShellRequestView::Burst {
                sender: *sender,
                receiver: *receiver,
                count: *count,
                size: *size,
            },
            ShellRequest::Ping { pinger, ponger, iterations } => ShellRequestView::Ping {
                pinger: *pinger,
                ponger: *ponger,
                iterations: *iterations,
            },
            ShellRequest::Send { to_pid, message } => ShellRequestView::Send {
                to_pid: *to_pid,
                message: message@,
            },
            ShellRequest::Caps => ShellRequestView::Caps,
            ShellRequest::Uptime => ShellRequestView::Uptime,
            ShellRequest::DateTime => ShellRequestView::DateTime,
            ShellRequest::Grant { from_pid, to_pid, slot, read, write, grant } => ShellRequestView::Grant {
                from_pid: *from_pid,
                to_pid: *to_pid,
                slot: *slot,
                read: *read,
                write: *write,
                grant: *grant,
            },
            ShellRequest::PingTest { pinger, ponger, iterations } => ShellRequestView::PingTest {
                pinger: *pinger,
                ponger: *ponger,
                iterations: *iterations,
            },
            ShellRequest::WorkerInfo { pid } => ShellRequestView::WorkerInfo { pid: *pid },
            ShellRequest::Exit => ShellRequestView::Exit,
        }
    }
}

/// What the shell does with a line.
#[derive(Clone, Debug, PartialEq, Eq)]
pub enum ShellStep {
    /// Write `text`, then the prompt when `prompt` holds.
    Write { text: String, prompt: bool },
    /// Write `preface`, have the host do `request` and write its outcome,
    /// then write the prompt when `prompt` holds.
    Run { preface: String, request: ShellRequest, prompt: bool },
}

/// A step with its texts taken by view.
pub enum ShellStepView {
    Write { text: Seq<char>, prompt: bool },
    Run { preface: Seq<char>, request: ShellRequestView, prompt: bool },
}

impl View for ShellStep {
    type V = ShellStepView;

    open spec fn view(&self) -> ShellStepView {
        match self {
            ShellStep::Write { text, prompt } => ShellStepView::Write { text: text@, prompt: *prompt },
            ShellStep::Run { preface, request, prompt } => ShellStepView::Run {
                preface: preface@,
                request: request@,
                prompt: *prompt,
            },
        }
    }
}

// ============================================================================
// Texts
// ============================================================================

pub open spec fn help_text() -> Seq<char> {
    "=== Orbital Kernel Test Terminal ===\n\n"@ + "Process Management:\n"@
        + "  ps                          - List processes\n"@
        + "  spawn <type> [name]         - Spawn test process\n"@
        + "      Types: memhog, sender, receiver, pingpong, idle\n"@
        + "  kill <pid>                  - Kill process\n"@
        + "  inspect <pid>               - Show detailed info\n"@
        + "  workerinfo <pid> / wi       - Show worker details\n"@ + "\n"@ + "Memory:\n"@
        + "  memstat                     - Memory per process\n"@
        + "  alloc <pid> <bytes>         - Allocate in process\n"@
        + "  free <pid> <bytes>          - Free in process\n"@ + "\n"@ + "IPC & Capabilities:\n"@
        + "  endpoints / ep              - List endpoints\n"@
        + "  queue <endpoint_id>         - Show queue contents\n"@
        + "  ipcstat                     - IPC stats per process\n"@
        + "  ipclog [count]              - Recent IPC traffic\n"@
        + "  send <pid> <message>        - Send message\n"@
        + "  caps [pid]                  - List capabilities\n"@
        + "  grant <from> <to> <slot>    - Grant capability\n"@ + "\n"@ + "Testing:\n"@
        + "  pingpong [n]                - Auto ping-pong test (default 100)\n"@
        + "  burst <s> <r> <n> <sz>      - Send message burst\n"@
        + "  ping <p1> <p2> [n]          - Manual worker ping-pong\n"@
        + "  pingtest <p1> <p2> [n]      - Supervisor poll latency\n"@ + "\n"@ + "System:\n"@
        + "  status / top                - System overview\n"@
        + "  uptime                      - Show uptime\n"@
        + "  datetime                    - Show date/time\n"@
        + "  echo <text>                 - Echo text\n"@
        + "  clear                       - Clear screen\n"@
        + "  exit                        - Exit terminal\n"@
}

#[verifier::spinoff_prover]
#[verifier::rlimit(40)]
fn push_help(s: &mut String)
    ensures
        final(s)@ == old(s)@ + help_text(),
{
    push_str(s, "=== Orbital Kernel Test Terminal ===\n\n");
    push_str(s, "Process Management:\n");
    push_str(s, "  ps                          - List processes\n");
    push_str(s, "  spawn <type> [name]         - Spawn test process\n");
    push_str(s, "      Types: memhog, sender, receiver, pingpong, idle\n");
    push_str(s, "  kill <pid>                  - Kill process\n");
    push_str(s, "  inspect <pid>               - Show detailed info\n");
    push_str(s, "  workerinfo <pid> / wi       - Show worker details\n");
    push_str(s, "\n");
    push_str(s, "Memory:\n");
    push_str(s, "  memstat                     - Memory per process\n");
    push_str(s, "  alloc <pid> <bytes>         - Allocate in process\n");
    push_str(s, "  free <pid> <bytes>          - Free in process\n");
    push_str(s, "\n");
    push_str(s, "IPC & Capabilities:\n");
    push_str(s, "  endpoints / ep              - List endpoints\n");
    push_str(s, "  queue <endpoint_id>         - Show queue contents\n");
    push_str(s, "  ipcstat                     - IPC stats per process\n");
    push_str(s, "  ipclog [count]              - Recent IPC traffic\n");
    push_str(s, "  send <pid> <message>        - Send message\n");
    push_str(s, "  caps [pid]                  - List capabilities\n");
    push_str(s, "  grant <from> <to> <slot>    - Grant capability\n");
    push_str(s, "\n");
    push_str(s, "Testing:\n");
    push_str(s, "  pingpong [n]                - Auto ping-pong test (default 100)\n");
    push_str(s, "  burst <s> <r> <n> <sz>      - Send message burst\n");
    push_str(s, "  ping <p1> <p2> [n]          - Manual worker ping-pong\n");
    push_str(s, "  pingtest <p1> <p2> [n]      - Supervisor poll latency\n");
    push_str(s, "\n");
    push_str(s, "System:\n");
    push_str(s, "  status / top                - System overview\n");
    push_str(s, "  uptime                      - Show uptime\n");
    push_str(s, "  datetime                    - Show date/time\n");
    push_str(s, "  echo <text>                 - Echo text\n");
    push_str(s, "  clear                       - Clear screen\n");
    push_str(s, "  exit                        - Exit terminal\n");
    assert(s@ =~= old(s)@ + help_text());
}

/// The process types the shell can spawn.
pub open spec fn is_spawn_type(t: Seq<char>) -> bool {
    t == "memhog"@ || t == "sender"@ || t == "receiver"@ || t == "pingpong"@ || t == "idle"@
        || t == "terminal"@ || t == "init"@
}

/// ASCII letters lowered; every other character kept.
pub open spec fn ascii_lower(t: Seq<char>) -> Seq<char> {
    Seq::new(
        t.len(),
        |i: int|
            if 'A' <= t[i] <= 'Z' {
                ((t[i] as u32) + 32) as char
            } else {
                t[i]
            },
    )
}

/// A `w` of `text`: `Write { text, prompt: true }`.
pub open spec fn say(text: Seq<char>) -> ShellStepView {
    ShellStepView::Write { text, prompt: true }
}

/// `Run` with an empty preface, prompting afterwards.
pub open spec fn run(request: ShellRequestView) -> ShellStepView {
    ShellStepView::Run { preface: Seq::empty(), request, prompt: true }
}

/// What a line asks for while the terminal process is alive.
pub open spec fn shell_spec(line: Seq<char>) -> ShellStepView {
    let w = words(line);
    if w.len() == 0 {
        ShellStepView::Write { text: Seq::empty(), prompt: true }
    } else {
        let cmd = w[0];
        let args = w.drop_first();
        if cmd == "help"@ {
            say(help_text())
        } else if cmd == "ps"@ {
            run(ShellRequestView::ListProcesses)
        } else if cmd == "spawn"@ {
            spawn_spec(args)
        } else if cmd == "kill"@ {
            kill_spec(args)
        } else if cmd == "inspect"@ {
            pid_command_spec(args, "Usage: inspect <pid>\n"@, |p: u64| ShellRequestView::Inspect { pid: p })
        } else if cmd == "memstat"@ {
            run(ShellRequestView::MemStat)
        } else if cmd == "alloc"@ {
            if args.len() < 2 {
                say("Usage: alloc <pid> <bytes>\n"@ + "Example: alloc 3 65536  (allocate 64KB to PID 3)\n"@)
            } else {
                match (parse_u64_spec(args[0]), parse_usize_spec(args[1])) {
                    (Some(p), Some(b)) => run(ShellRequestView::Alloc { pid: p, bytes: b }),
                    _ => say("Error: Invalid arguments\n"@),
                }
            }
        } else if cmd == "free"@ {
            if args.len() < 2 {
                say("Usage: free <pid> <bytes>\n"@ + "Example: free 3 65536  (free 64KB from PID 3)\n"@)
            } else {
                match (parse_u64_spec(args[0]), parse_usize_spec(args[1])) {
                    (Some(p), Some(b)) => run(ShellRequestView::Free { pid: p, bytes: b }),
                    _ => say("Error: Invalid arguments\n"@),
                }
            }
        } else if cmd == "endpoints"@ || cmd == "ep"@ {
            run(ShellRequestView::Endpoints)
        } else if cmd == "queue"@ {
            if args.len() == 0 {
                say("Usage: queue <endpoint_id>\n"@)
            } else {
                match parse_u64_spec(args[0]) {
                    Some(e) => run(ShellRequestView::Queue { endpoint_id: e }),
                    None => say("Error: Invalid endpoint ID\n"@),
                }
            }
        } else if cmd == "ipcstat"@ {
            run(ShellRequestView::IpcStat)
        } else if cmd == "ipclog"@ {
            run(
                ShellRequestView::IpcLog {
                    count: if args.len() > 0 {
                        match parse_usize_spec(args[0]) {
                            Some(c) => c,
                            None => 20,
                        }
                    } else {
                        20
                    },
                },
            )
        } else if cmd == "status"@ || cmd == "top"@ {
            run(ShellRequestView::Status)
        } else if cmd == "pingpong"@ {
            let n: u32 = if args.len() > 0 {
                match parse_u32_spec(args[0]) {
                    Some(v) => v,
                    None => 100,
                }
            } else {
                100
            };
            if n == 0 || n > 100000 {
                say(
                    "Usage: pingpong [iterations]\n"@ + "  iterations: 1-100000 (default: 100)\n"@
                        + "Example: pingpong 1000\n"@,
                )
            } else {
                ShellStepView::Run {
                    preface: Seq::empty(),
                    request: ShellRequestView::PingPong { iterations: n },
                    prompt: false,
                }
            }
        } else if cmd == "burst"@ {
            if args.len() < 4 {
                say(
                    "Usage: burst <sender_pid> <receiver_pid> <count> <msg_size>\n"@
                        + "Example: burst 3 4 100 64  (send 100 messages of 64 bytes)\n"@,
                )
            } else {
                match (
                    parse_u64_spec(args[0]),
                    parse_u64_spec(args[1]),
                    parse_usize_spec(args[2]),
                    parse_usize_spec(args[3]),
                ) {
                    (Some(s), Some(r), Some(c), Some(z)) => run(
                        ShellRequestView::Burst { sender: s, receiver: r, count: c, size: z },
                    ),
                    _ => say("Error: Invalid arguments\n"@),
                }
            }
        } else if cmd == "ping"@ {
            if args.len() < 2 {
                say(
                    "Usage: ping <pinger_pid> <ponger_pid> [iterations]\n"@
                        + "  Runs REAL worker-to-worker latency test via syscalls.\n"@
                        + "  First spawn two pingpong processes:\n"@ + "    spawn pingpong p1\n"@
                        + "    spawn pingpong p2\n"@ + "Example: ping 3 4 100\n"@,
                )
            } else {
                match (parse_u64_spec(args[0]), parse_u64_spec(args[1])) {
                    (Some(a), Some(b)) => run(
                        ShellRequestView::Ping { pinger: a, ponger: b, iterations: ping_iterations_arg(args) },
                    ),
                    _ => say("Error: Invalid PIDs\n"@),
                }
            }
        } else if cmd == "send"@ {
            if args.len() < 2 {
                say("Usage: send <pid> <message>\n"@ + "Example: send 3 hello world\n"@)
            } else {
                match parse_u64_spec(args[0]) {
                    Some(p) => run(ShellRequestView::Send { to_pid: p, message: join_words(args.skip(1)) }),
                    None => say("Error: Invalid PID\n"@),
                }
            }
        } else if cmd == "caps"@ {
            run(ShellRequestView::Caps)
        } else if cmd == "echo"@ {
            say(join_words(args) + "\n"@)
        } else if cmd == "uptime"@ {
            run(ShellRequestView::Uptime)
        } else if cmd == "datetime"@ {
            run(ShellRequestView::DateTime)
        } else if cmd == "clear"@ {
            say("\x1B[2J\x1B[H"@)
        } else if cmd == "grant"@ {
            grant_spec(args)
        } else if cmd == "pingtest"@ {
            if args.len() < 2 {
                say(
                    "Usage: pingtest <pinger_pid> <ponger_pid> [iterations]\n"@
                        + "  Runs latency test between two spawned pingpong processes.\n"@
                        + "  First spawn two processes: spawn pingpong p1 && spawn pingpong p2\n"@
                        + "Example: pingtest 3 4 100\n"@,
                )
            } else {
                match (parse_u64_spec(args[0]), parse_u64_spec(args[1])) {
                    (Some(a), Some(b)) => run(
                        ShellRequestView::PingTest { pinger: a, ponger: b, iterations: pingtest_iterations_arg(args) },
                    ),
                    _ => say("Error: Invalid PIDs\n"@),
                }
            }
        } else if cmd == "workerinfo"@ || cmd == "wi"@ {
            pid_command_spec(
                args,
                "Usage: workerinfo <pid>\n"@,
                |p: u64| ShellRequestView::WorkerInfo { pid: p },
            )
        } else if cmd == "exit"@ {
            ShellStepView::Run { preface: "Goodbye!\n"@, request: ShellRequestView::Exit, prompt: false }
        } else {
            say("Unknown command: "@ + cmd + "\n"@ + "Type 'help' for available commands.\n"@)
        }
    }
}

/// The iteration count of a `ping`: the third argument as an `i32`, or 100.
pub open spec fn ping_iterations_arg(args: Seq<Seq<char>>) -> i32 {
    if args.len() > 2 {
        match crate::words::parse_i32_spec(args[2]) {
            Some(v) => v,
            None => 100,
        }
    } else {
        100
    }
}

/// The iteration count of a `pingtest`: the third argument as a `usize`, or 100.
pub open spec fn pingtest_iterations_arg(args: Seq<Seq<char>>) -> usize {
    if args.len() > 2 {
        match parse_usize_spec(args[2]) {
            Some(v) => v,
            None => 100,
        }
    } else {
        100
    }
}

/// A command on one process id: its usage without one, an error when it
/// does not parse.
pub open spec fn pid_command_spec(
    args: Seq<Seq<char>>,
    usage: Seq<char>,
    req: spec_fn(u64) -> ShellRequestView,
) -> ShellStepView {
    if args.len() == 0 {
        say(usage)
    } else {
        match parse_u64_spec(args[0]) {
            Some(p) => run(req(p)),
            None => say("Error: Invalid PID\n"@),
        }
    }
}

/// `spawn <type> [name]`: the type must be one of the spawnable types
/// (ignoring ASCII case); the name defaults to the type.
pub open spec fn spawn_spec(args: Seq<Seq<char>>) -> ShellStepView {
    if args.len() == 0 {
        say(
            "Usage: spawn <type> [name]\n"@
                + "Types: memhog, sender, receiver, pingpong, idle, terminal, init\n"@
                + "Example: spawn memhog myhog\n"@,
        )
    } else if !is_spawn_type(ascii_lower(args[0])) {
        say(
            "Unknown process type: "@ + args[0] + "\n"@
                + "Valid types: memhog, sender, receiver, pingpong, idle, terminal, init\n"@,
        )
    } else {
        let name = if args.len() > 1 {
            args[1]
        } else {
            args[0]
        };
        ShellStepView::Run {
            preface: "Spawning "@ + name + "...\n"@,
            request: ShellRequestView::Spawn { process_type: args[0], name },
            prompt: true,
        }
    }
}

/// `kill <pid>`: init and the terminal cannot be killed from here.
pub open spec fn kill_spec(args: Seq<Seq<char>>) -> ShellStepView {
    if args.len() == 0 {
        say("Usage: kill <pid>\n"@)
    } else {
        match parse_u64_spec(args[0]) {
            Some(p) => if p == 1 {
                say("Error: Cannot kill init (PID 1)\n"@)
            } else if p == 2 {
                say("Error: Use 'exit' to kill terminal\n"@)
            } else {
                run(ShellRequestView::Kill { pid: p })
            },
            None => say("Error: Invalid PID\n"@),
        }
    }
}

/// `grant <from_pid> <to_pid> <slot> [perms]`: the permissions are the
/// letters r, w and g of the fourth argument (default "rw").
pub open spec fn grant_spec(args: Seq<Seq<char>>) -> ShellStepView {
    if args.len() < 3 {
        say(
            "Usage: grant <from_pid> <to_pid> <slot> [perms]\n"@
                + "  perms: rwg (read/write/grant), default: rw\n"@
                + "Example: grant 3 4 0 rw  (grant PID 3's slot 0 to PID 4)\n"@,
        )
    } else {
        match (parse_u64_spec(args[0]), parse_u64_spec(args[1]), parse_u32_spec(args[2])) {
            (Some(f), Some(t), Some(s)) => {
                let perms = if args.len() > 3 {
                    args[3]
                } else {
                    "rw"@
                };
                run(
                    ShellRequestView::Grant {
                        from_pid: f,
                        to_pid: t,
                        slot: s,
                        read: perms.contains('r'),
                        write: perms.contains('w'),
                        grant: perms.contains('g'),
                    },
                )
            },
            _ => say("Error: Invalid arguments\n"@),
        }
    }
}

/// What a line asks for: nothing while the terminal process is down (the
/// shell says so), and otherwise as `shell_spec` says.
pub open spec fn shell_line_spec(alive: bool, line: Seq<char>) -> ShellStepView {
    if !alive {
        ShellStepView::Write {
            text: "[kernel] Terminal process not running. No shell available.\n"@,
            prompt: false,
        }
    } else {
        shell_spec(line)
    }
}

/// The argument words of a split line.
pub open spec fn args_of(ws: Seq<Vec<char>>) -> Seq<Seq<char>> {
    ws.map_values(|v: Vec<char>| v@).drop_first()
}

fn say_str(t: &str) -> (step: ShellStep)
    ensures
        step@ == say(t@),
{
    ShellStep::Write { text: string_from(t), prompt: true }
}

fn say_two(a: &str, b: &str) -> (step: ShellStep)
    ensures
        step@ == say(a@ + b@),
{
    let mut t = string_from(a);
    push_str(&mut t, b);
    ShellStep::Write { text: t, prompt: true }
}

fn run_req(request: ShellRequest) -> (step: ShellStep)
    ensures
        step@ == run(request@),
{
    let preface = String::new();
    assert(preface@ =~= Seq::<char>::empty());
    ShellStep::Run { preface, request, prompt: true }
}

fn lower_ascii(t: &[char]) -> (r: Vec<char>)
    ensures
        r@ == ascii_lower(t@),
{
    let mut r: Vec<char> = Vec::new();
    let mut i: usize = 0;
    while i < t.len()
        invariant
            i <= t@.len(),
            r@ == ascii_lower(t@).take(i as int),
        decreases t@.len() - i,
    {
        let c = t[i];
        if 'A' <= c && c <= 'Z' {
            r.push(((c as u32) + 32) as u8 as char);
            assert(((c as u32) + 32) as u8 as char == ((c as u32) + 32) as char);
        } else {
            r.push(c);
        }
        i = i + 1;
        assert(r@ =~= ascii_lower(t@).take(i as int));
    }
    assert(ascii_lower(t@).take(t@.len() as int) =~= ascii_lower(t@));
    r
}

fn spawnable(t: &[char]) -> (r: bool)
    ensures
        r == is_spawn_type(ascii_lower(t@)),
{
    let l = lower_ascii(t);
    let s = l.as_slice();
    crate::words::chars_eq_str(s, "memhog") || crate::words::chars_eq_str(s, "sender")
        || crate::words::chars_eq_str(s, "receiver") || crate::words::chars_eq_str(s, "pingpong")
        || crate::words::chars_eq_str(s, "idle") || crate::words::chars_eq_str(s, "terminal")
        || crate::words::chars_eq_str(s, "init")
}

fn arg_string(ws: &Vec<Vec<char>>, k: usize) -> (s: String)
    requires
        k < ws@.len(),
    ensures
        s@ == ws@[k as int]@,
{
    string_from_chars(ws[k].as_slice())
}

fn spawn_step(ws: &Vec<Vec<char>>) -> (step: ShellStep)
    requires
        ws@.len() >= 1,
    ensures
        step@ == spawn_spec(args_of(ws@)),
{
    let ghost a = args_of(ws@);
    let n = ws.len() - 1;
    proof {
        if n > 0 {
            assert(a[0] == ws@[1]@);
        }
        if n > 1 {
            assert(a[1] == ws@[2]@);
        }
    }
    if n == 0 {
        let mut t = string_from("Usage: spawn <type> [name]\n");
        push_str(&mut t, "Types: memhog, sender, receiver, pingpong, idle, terminal, init\n");
        push_str(&mut t, "Example: spawn memhog myhog\n");
        assert(a.len() == 0);
        return ShellStep::Write { text: t, prompt: true };
    }
    if !spawnable(ws[1].as_slice()) {
        let mut t = string_from("Unknown process type: ");
        let pt = arg_string(ws, 1);
        push_str(&mut t, pt.as_str());
        push_str(&mut t, "\n");
        push_str(&mut t, "Valid types: memhog, sender, receiver, pingpong, idle, terminal, init\n");
        return ShellStep::Write { text: t, prompt: true };
    }
    let process_type = arg_string(ws, 1);
    let name = if n > 1 {
        arg_string(ws, 2)
    } else {
        arg_string(ws, 1)
    };
    let mut preface = string_from("Spawning ");
    push_str(&mut preface, name.as_str());
    push_str(&mut preface, "...\n");
    ShellStep::Run { preface, request: ShellRequest::Spawn { process_type, name }, prompt: true }
}

fn kill_step(ws: &Vec<Vec<char>>) -> (step: ShellStep)
    requires
        ws@.len() >= 1,
    ensures
        step@ == kill_spec(args_of(ws@)),
{
    let ghost a = args_of(ws@);
    if ws.len() < 2 {
        return say_str("Usage: kill <pid>\n");
    }
    assert(a[0] == ws@[1]@);
    match parse_u64(ws[1].as_slice()) {
        Some(p) => if p == 1 {
            say_str("Error: Cannot kill init (PID 1)\n")
        } else if p == 2 {
            say_str("Error: Use 'exit' to kill terminal\n")
        } else {
            run_req(ShellRequest::Kill { pid: p })
        },
        None => say_str("Error: Invalid PID\n"),
    }
}

fn inspect_step(ws: &Vec<Vec<char>>, worker: bool) -> (step: ShellStep)
    requires
        ws@.len() >= 1,
    ensures
        !worker ==> step@ == pid_command_spec(
            args_of(ws@),
            "Usage: inspect <pid>\n"@,
            |p: u64| ShellRequestView::Inspect { pid: p },
        ),
        worker ==> step@ == pid_command_spec(
            args_of(ws@),
            "Usage: workerinfo <pid>\n"@,
            |p: u64| ShellRequestView::WorkerInfo { pid: p },
        ),
{
    let ghost a = args_of(ws@);
    if ws.len() < 2 {
        return if worker {
            say_str("Usage: workerinfo <pid>\n")
        } else {
            say_str("Usage: inspect <pid>\n")
        };
    }
    assert(a[0] == ws@[1]@);
    match parse_u64(ws[1].as_slice()) {
        Some(p) => if worker {
            run_req(ShellRequest::WorkerInfo { pid: p })
        } else {
            run_req(ShellRequest::Inspect { pid: p })
        },
        None => say_str("Error: Invalid PID\n"),
    }
}

fn memory_step(ws: &Vec<Vec<char>>, free: bool) -> (step: ShellStep)
    requires
        ws@.len() >= 1,
    ensures
        ({
            let a = args_of(ws@);
            step@ == if a.len() < 2 {
                if free {
                    say("Usage: free <pid> <bytes>\n"@ + "Example: free 3 65536  (free 64KB from PID 3)\n"@)
                } else {
                    say("Usage: alloc <pid> <bytes>\n"@ + "Example: alloc 3 65536  (allocate 64KB to PID 3)\n"@)
                }
            } else {
                match (parse_u64_spec(a[0]), parse_usize_spec(a[1])) {
                    (Some(p), Some(b)) => if free {
                        run(ShellRequestView::Free { pid: p, bytes: b })
                    } else {
                        run(ShellRequestView::Alloc { pid: p, bytes: b })
                    },
                    _ => say("Error: Invalid arguments\n"@),
                }
            }
        }),
{
    let ghost a = args_of(ws@);
    if ws.len() < 3 {
        return if free {
            say_two("Usage: free <pid> <bytes>\n", "Example: free 3 65536  (free 64KB from PID 3)\n")
        } else {
            say_two("Usage: alloc <pid> <bytes>\n", "Example: alloc 3 65536  (allocate 64KB to PID 3)\n")
        };
    }
    assert(a[0] == ws@[1]@ && a[1] == ws@[2]@);
    match (parse_u64(ws[1].as_slice()), parse_usize(ws[2].as_slice())) {
        (Some(p), Some(b)) => if free {
            run_req(ShellRequest::Free { pid: p, bytes: b })
        } else {
            run_req(ShellRequest::Alloc { pid: p, bytes: b })
        },
        _ => say_str("Error: Invalid arguments\n"),
    }
}

fn ping_iterations_of(ws: &Vec<Vec<char>>) -> (n: i32)
    requires
        ws@.len() >= 1,
    ensures
        n == ping_iterations_arg(args_of(ws@)),
{
    let ghost a = args_of(ws@);
    if ws.len() > 3 {
        assert(a[2] == ws@[3]@);
        match crate::words::parse_i32(ws[3].as_slice()) {
            Some(v) => v,
            None => 100,
        }
    } else {
        100
    }
}

fn pingtest_iterations_of(ws: &Vec<Vec<char>>) -> (n: usize)
    requires
        ws@.len() >= 1,
    ensures
        n == pingtest_iterations_arg(args_of(ws@)),
{
    let ghost a = args_of(ws@);
    if ws.len() > 3 {
        assert(a[2] == ws@[3]@);
        match parse_usize(ws[3].as_slice()) {
            Some(v) => v,
            None => 100,
        }
    } else {
        100
    }
}

fn latency_step(ws: &Vec<Vec<char>>, poll: bool) -> (step: ShellStep)
    requires
        ws@.len() >= 1,
    ensures
        ({
            let a = args_of(ws@);
            step@ == if a.len() < 2 {
                if poll {
                    say(
                        "Usage: pingtest <pinger_pid> <ponger_pid> [iterations]\n"@
                            + "  Runs latency test between two spawned pingpong processes.\n"@
                            + "  First spawn two processes: spawn pingpong p1 && spawn pingpong p2\n"@
                            + "Example: pingtest 3 4 100\n"@,
                    )
                } else {
                    say(
                        "Usage: ping <pinger_pid> <ponger_pid> [iterations]\n"@
                            + "  Runs REAL worker-to-worker latency test via syscalls.\n"@
                            + "  First spawn two pingpong processes:\n"@ + "    spawn pingpong p1\n"@
                            + "    spawn pingpong p2\n"@ + "Example: ping 3 4 100\n"@,
                    )
                }
            } else {
                match (parse_u64_spec(a[0]), parse_u64_spec(a[1])) {
                    (Some(x), Some(y)) => if poll {
                        run(ShellRequestView::PingTest { pinger: x, ponger: y, iterations: pingtest_iterations_arg(a) })
                    } else {
                        run(ShellRequestView::Ping { pinger: x, ponger: y, iterations: ping_iterations_arg(a) })
                    },
                    _ => say("Error: Invalid PIDs\n"@),
                }
            }
        }),
{
    let ghost a = args_of(ws@);
    if ws.len() < 3 {
        let mut t = String::new();
        if poll {
            push_str(&mut t, "Usage: pingtest <pinger_pid> <ponger_pid> [iterations]\n");
            push_str(&mut t, "  Runs latency test between two spawned pingpong processes.\n");
            push_str(&mut t, "  First spawn two processes: spawn pingpong p1 && spawn pingpong p2\n");
            push_str(&mut t, "Example: pingtest 3 4 100\n");
            assert(t@ =~= "Usage: pingtest <pinger_pid> <ponger_pid> [iterations]\n"@
                + "  Runs latency test between two spawned pingpong processes.\n"@
                + "  First spawn two processes: spawn pingpong p1 && spawn pingpong p2\n"@
                + "Example: pingtest 3 4 100\n"@);
        } else {
            push_str(&mut t, "Usage: ping <pinger_pid> <ponger_pid> [iterations]\n");
            push_str(&mut t, "  Runs REAL worker-to-worker latency test via syscalls.\n");
            push_str(&mut t, "  First spawn two pingpong processes:\n");
            push_str(&mut t, "    spawn pingpong p1\n");
            push_str(&mut t, "    spawn pingpong p2\n");
            push_str(&mut t, "Example: ping 3 4 100\n");
            assert(t@ =~= "Usage: ping <pinger_pid> <ponger_pid> [iterations]\n"@
                + "  Runs REAL worker-to-worker latency test via syscalls.\n"@
                + "  First spawn two pingpong processes:\n"@ + "    spawn pingpong p1\n"@
                + "    spawn pingpong p2\n"@ + "Example: ping 3 4 100\n"@);
        }
        return ShellStep::Write { text: t, prompt: true };
    }
    assert(a[0] == ws@[1]@ && a[1] == ws@[2]@);
    match (parse_u64(ws[1].as_slice()), parse_u64(ws[2].as_slice())) {
        (Some(x), Some(y)) => {
            if poll {
                let iterations = pingtest_iterations_of(ws);
                run_req(ShellRequest::PingTest { pinger: x, ponger: y, iterations })
            } else {
                let iterations = ping_iterations_of(ws);
                run_req(ShellRequest::Ping { pinger: x, ponger: y, iterations })
            }
        },
        _ => say_str("Error: Invalid PIDs\n"),
    }
}

fn grant_step(ws: &Vec<Vec<char>>) -> (step: ShellStep)
    requires
        ws@.len() >= 1,
    ensures
        step@ == grant_spec(args_of(ws@)),
{
    let ghost a = args_of(ws@);
    if ws.len() < 4 {
        let mut t = string_from("Usage: grant <from_pid> <to_pid> <slot> [perms]\n");
        push_str(&mut t, "  perms: rwg (read/write/grant), default: rw\n");
        push_str(&mut t, "Example: grant 3 4 0 rw  (grant PID 3's slot 0 to PID 4)\n");
        return ShellStep::Write { text: t, prompt: true };
    }
    assert(a[0] == ws@[1]@ && a[1] == ws@[2]@ && a[2] == ws@[3]@);
    match (parse_u64(ws[1].as_slice()), parse_u64(ws[2].as_slice()), parse_u32(ws[3].as_slice())) {
        (Some(f), Some(t), Some(slot)) => {
            let perms: Vec<char> = if ws.len() > 4 {
                assert(a[3] == ws@[4]@);
                let v = crate::service::slice_chars(ws[4].as_slice(), 0, ws[4].len());
                assert(v@ =~= ws@[4]@);
                v
            } else {
                let v = chars_of("rw");
                v
            };
            let read = crate::words::contains_char(perms.as_slice(), 'r');
            let write = crate::words::contains_char(perms.as_slice(), 'w');
            let grant = crate::words::contains_char(perms.as_slice(), 'g');
            run_req(ShellRequest::Grant { from_pid: f, to_pid: t, slot, read, write, grant })
        },
        _ => say_str("Error: Invalid arguments\n"),
    }
}

/// What the shell does with a line (see `shell_line_spec`).
pub fn shell_step(alive: bool, line: &str) -> (step: ShellStep)
    ensures
        step@ == shell_line_spec(alive, line@),
{
    if !alive {
        return ShellStep::Write {
            text: string_from("[kernel] Terminal process not running. No shell available.\n"),
            prompt: false,
        };
    }
    let cs = chars_of(line);
    let ws = split_whitespace(cs.as_slice());
    let ghost w = words(line@);
    assert(ws@.map_values(|v: Vec<char>| v@) =~= w);
    if ws.len() == 0 {
        let text = String::new();
        assert(text@ =~= Seq::<char>::empty());
        return ShellStep::Write { text, prompt: true };
    }
    let ghost a = args_of(ws@);
    assert(a =~= w.drop_first());
    let n = ws.len() - 1;
    let cmd = ws[0].as_slice();
    if crate::words::chars_eq_str(cmd, "help") {
        let mut t = String::new();
        push_help(&mut t);
        assert(t@ =~= help_text());
        ShellStep::Write { text: t, prompt: true }
    } else if crate::words::chars_eq_str(cmd, "ps") {
        run_req(ShellRequest::ListProcesses)
    } else if crate::words::chars_eq_str(cmd, "spawn") {
        spawn_step(&ws)
    } else if crate::words::chars_eq_str(cmd, "kill") {
        kill_step(&ws)
    } else if crate::words::chars_eq_str(cmd, "inspect") {
        inspect_step(&ws, false)
    } else if crate::words::chars_eq_str(cmd, "memstat") {
        run_req(ShellRequest::MemStat)
    } else if crate::words::chars_eq_str(cmd, "alloc") {
        memory_step(&ws, false)
    } else if crate::words::chars_eq_str(cmd, "free") {
        memory_step(&ws, true)
    } else if crate::words::chars_eq_str(cmd, "endpoints") || crate::words::chars_eq_str(cmd, "ep") {
        run_req(ShellRequest::Endpoints)
    } else if crate::words::chars_eq_str(cmd, "queue") {
        if n == 0 {
            say_str("Usage: queue <endpoint_id>\n")
        } else {
            assert(a[0] == ws@[1]@);
            match parse_u64(ws[1].as_slice()) {
                Some(e) => run_req(ShellRequest::Queue { endpoint_id: e }),
                None => say_str("Error: Invalid endpoint ID\n"),
            }
        }
    } else if crate::words::chars_eq_str(cmd, "ipcstat") {
        run_req(ShellRequest::IpcStat)
    } else if crate::words::chars_eq_str(cmd, "ipclog") {
        let count: usize = if n > 0 {
            assert(a[0] == ws@[1]@);
            match parse_usize(ws[1].as_slice()) {
                Some(c) => c,
                None => 20,
            }
        } else {
            20
        };
        run_req(ShellRequest::IpcLog { count })
    } else if crate::words::chars_eq_str(cmd, "status") || crate::words::chars_eq_str(cmd, "top") {
        run_req(ShellRequest::Status)
    } else if crate::words::chars_eq_str(cmd, "pingpong") {
        let iterations: u32 = if n > 0 {
            assert(a[0] == ws@[1]@);
            match parse_u32(ws[1].as_slice()) {
                Some(v) => v,
                None => 100,
            }
        } else {
            100
        };
        if iterations == 0 || iterations > 100000 {
            let mut t = string_from("Usage: pingpong [iterations]\n");
            push_str(&mut t, "  iterations: 1-100000 (default: 100)\n");
            push_str(&mut t, "Example: pingpong 1000\n");
            ShellStep::Write { text: t, prompt: true }
        } else {
            let preface = String::new();
            assert(preface@ =~= Seq::<char>::empty());
            ShellStep::Run { preface, request: ShellRequest::PingPong { iterations }, prompt: false }
        }
    } else if crate::words::chars_eq_str(cmd, "burst") {
        if n < 4 {
            say_two(
                "Usage: burst <sender_pid> <receiver_pid> <count> <msg_size>\n",
                "Example: burst 3 4 100 64  (send 100 messages of 64 bytes)\n",
            )
        } else {
            assert(a[0] == ws@[1]@ && a[1] == ws@[2]@ && a[2] == ws@[3]@ && a[3] == ws@[4]@);
            match (
                parse_u64(ws[1].as_slice()),
                parse_u64(ws[2].as_slice()),
                parse_usize(ws[3].as_slice()),
                parse_usize(ws[4].as_slice()),
            ) {
                (Some(sender), Some(receiver), Some(count), Some(size)) => run_req(
                    ShellRequest::Burst { sender, receiver, count, size },
                ),
                _ => say_str("Error: Invalid arguments\n"),
            }
        }
    } else if crate::words::chars_eq_str(cmd, "ping") {
        latency_step(&ws, false)
    } else if crate::words::chars_eq_str(cmd, "send") {
        if n < 2 {
            say_two("Usage: send <pid> <message>\n", "Example: send 3 hello world\n")
        } else {
            assert(a[0] == ws@[1]@);
            match parse_u64(ws[1].as_slice()) {
                Some(p) => {
                    let message = join_from(&ws, 2);
                    assert(ws@.map_values(|v: Vec<char>| v@).skip(2) =~= a.skip(1));
                    run_req(ShellRequest::Send { to_pid: p, message })
                },
                None => say_str("Error: Invalid PID\n"),
            }
        }
    } else if crate::words::chars_eq_str(cmd, "caps") {
        run_req(ShellRequest::Caps)
    } else if crate::words::chars_eq_str(cmd, "echo") {
        let mut t = join_from(&ws, 1);
        assert(ws@.map_values(|v: Vec<char>| v@).skip(1) =~= a);
        push_str(&mut t, "\n");
        ShellStep::Write { text: t, prompt: true }
    } else if crate::words::chars_eq_str(cmd, "uptime") {
        run_req(ShellRequest::Uptime)
    } else if crate::words::chars_eq_str(cmd, "datetime") {
        run_req(ShellRequest::DateTime)
    } else if crate::words::chars_eq_str(cmd, "clear") {
        say_str("\x1B[2J\x1B[H")
    } else if crate::words::chars_eq_str(cmd, "grant") {
        grant_step(&ws)
    } else if crate::words::chars_eq_str(cmd, "pingtest") {
        latency_step(&ws, true)
    } else if crate::words::chars_eq_str(cmd, "workerinfo") || crate::words::chars_eq_str(cmd, "wi") {
        inspect_step(&ws, true)
    } else if crate::words::chars_eq_str(cmd, "exit") {
        ShellStep::Run { preface: string_from("Goodbye!\n"), request: ShellRequest::Exit, prompt: false }
    } else {
        let mut t = string_from("Unknown command: ");
        let c = string_from_chars(cmd);
        push_str(&mut t, c.as_str());
        push_str(&mut t, "\n");
        push_str(&mut t, "Type 'help' for available commands.\n");
        ShellStep::Write { text: t, prompt: true }
    }
}

// ============================================================================
// Outcome texts
// ============================================================================

/// `n` in decimal, zero-padded on the left to `width` digits.
pub open spec fn zero_padded(n: nat, width: nat) -> Seq<char> {
    crate::words::pad_left(decimal(n), width, '0')
}

fn push_zero_padded(s: &mut String, n: u64, width: usize)
    ensures
        final(s)@ == old(s)@ + zero_padded(n as nat, width as nat),
{
    let digits = crate::words::decimal_chars(n as u128);
    crate::words::push_padded_left(s, digits.as_slice(), width, '0');
}

/// The uptime line: hours and minutes only when non-zero, then seconds
/// with three decimals.
pub open spec fn uptime_text(nanos: u64) -> Seq<char> {
    let total = nanos / 1_000_000_000;
    let ms = (nanos % 1_000_000_000) / 1_000_000;
    let hours = total / 3600;
    let mins = (total % 3600) / 60;
    let secs = total % 60;
    let tail = decimal(secs as nat) + "."@ + zero_padded(ms as nat, 3) + "s\n"@;
    if hours > 0 {
        "Uptime: "@ + decimal(hours as nat) + "h "@ + decimal(mins as nat) + "m "@ + tail
    } else if mins > 0 {
        "Uptime: "@ + decimal(mins as nat) + "m "@ + tail
    } else {
        "Uptime: "@ + tail
    }
}

/// Write the uptime line.
pub fn uptime_line(nanos: u64) -> (t: String)
    ensures
        t@ == uptime_text(nanos),
{
    let total = nanos / 1_000_000_000;
    let ms = (nanos % 1_000_000_000) / 1_000_000;
    let hours = total / 3600;
    let mins = (total % 3600) / 60;
    let secs = total % 60;
    let mut t = string_from("Uptime: ");
    if hours > 0 {
        push_decimal(&mut t, hours as u128);
        push_str(&mut t, "h ");
        push_decimal(&mut t, mins as u128);
        push_str(&mut t, "m ");
    } else if mins > 0 {
        push_decimal(&mut t, mins as u128);
        push_str(&mut t, "m ");
    }
    push_decimal(&mut t, secs as u128);
    push_str(&mut t, ".");
    push_zero_padded(&mut t, ms, 3);
    push_str(&mut t, "s\n");
    t
}

/// The date and time of a Unix timestamp in milliseconds:
/// `YYYY-MM-DD HH:MM:SS.mmm UTC`.
pub open spec fn datetime_text(timestamp_ms: u64) -> Seq<char> {
    let secs = timestamp_ms / 1000;
    let ms = timestamp_ms % 1000;
    let days = secs / 86400;
    let t = secs % 86400;
    let (y, m, d) = crate::calendar::civil_from_days(days as int);
    zero_padded(y as nat, 4) + "-"@ + zero_padded(m as nat, 2) + "-"@ + zero_padded(d as nat, 2) + " "@
        + zero_padded((t / 3600) as nat, 2) + ":"@ + zero_padded(((t % 3600) / 60) as nat, 2) + ":"@
        + zero_padded((t % 60) as nat, 2) + "."@ + zero_padded(ms as nat, 3) + " UTC\n"@
}

/// Write the date and time of a Unix timestamp in milliseconds.
pub fn datetime_line(timestamp_ms: u64) -> (text: String)
    ensures
        text@ == datetime_text(timestamp_ms),
{
    let secs = timestamp_ms / 1000;
    let ms = timestamp_ms % 1000;
    let days = secs / 86400;
    let t = secs % 86400;
    let (y, m, d) = crate::calendar::days_to_ymd(days as i64);
    proof {
        crate::calendar::lemma_civil_roundtrip(days as int);
        assert((days as int + 719468) / 146097 >= 4);
    }
    let mut text = String::new();
    push_zero_padded(&mut text, y as u64, 4);
    push_str(&mut text, "-");
    push_zero_padded(&mut text, m as u64, 2);
    push_str(&mut text, "-");
    push_zero_padded(&mut text, d as u64, 2);
    push_str(&mut text, " ");
    push_zero_padded(&mut text, t / 3600, 2);
    push_str(&mut text, ":");
    push_zero_padded(&mut text, (t % 3600) / 60, 2);
    push_str(&mut text, ":");
    push_zero_padded(&mut text, t % 60, 2);
    push_str(&mut text, ".");
    push_zero_padded(&mut text, ms, 3);
    push_str(&mut text, " UTC\n");
    assert(text@ =~= datetime_text(timestamp_ms));
    text
}

/// The outcome of a kill: whether the process existed.
pub open spec fn kill_text(pid: u64, found: bool) -> Seq<char> {
    if found {
        "Killed process PID "@ + decimal(pid as nat) + "\n"@
    } else {
        "Error: Process "@ + decimal(pid as nat) + " not found\n"@
    }
}

/// Write the outcome of a kill.
pub fn kill_line(pid: u64, found: bool) -> (t: String)
    ensures
        t@ == kill_text(pid, found),
{
    let mut t = if found {
        string_from("Killed process PID ")
    } else {
        string_from("Error: Process ")
    };
    push_decimal(&mut t, pid as u128);
    if found {
        push_str(&mut t, "\n");
    } else {
        push_str(&mut t, " not found\n");
    }
    t
}

/// How the kernel answered a memory request.
#[derive(Clone, Copy, Debug, PartialEq, Eq, Structural)]
pub enum MemoryOutcome {
    /// Done; the process now holds this many bytes.
    Done(usize),
    ProcessNotFound,
    Failed,
}

/// The outcome of an allocation (`free` false) or a release (`free` true).
pub open spec fn memory_text(pid: u64, bytes: usize, free: bool, outcome: MemoryOutcome) -> Seq<char> {
    match outcome {
        MemoryOutcome::Done(total) => if free {
            "Freed "@ + decimal(bytes as nat) + " bytes from PID "@ + decimal(pid as nat) + ". Total: "@
                + decimal((total / 1024) as nat) + " KB\n"@
        } else {
            "Allocated "@ + decimal(bytes as nat) + " bytes to PID "@ + decimal(pid as nat) + ". Total: "@
                + decimal((total / 1024) as nat) + " KB\n"@
        },
        MemoryOutcome::ProcessNotFound => "Error: Process "@ + decimal(pid as nat) + " not found\n"@,
        MemoryOutcome::Failed => if free {
            "Error: Free failed\n"@
        } else {
            "Error: Allocation failed\n"@
        },
    }
}

/// Write the outcome of a memory request.
pub fn memory_line(pid: u64, bytes: usize, free: bool, outcome: MemoryOutcome) -> (t: String)
    ensures
        t@ == memory_text(pid, bytes, free, outcome),
{
    match outcome {
        MemoryOutcome::Done(total) => {
            let mut t = if free {
                string_from("Freed ")
            } else {
                string_from("Allocated ")
            };
            push_decimal(&mut t, bytes as u128);
            if free {
                push_str(&mut t, " bytes from PID ");
            } else {
                push_str(&mut t, " bytes to PID ");
            }
            push_decimal(&mut t, pid as u128);
            push_str(&mut t, ". Total: ");
            push_decimal(&mut t, (total / 1024) as u128);
            push_str(&mut t, " KB\n");
            t
        },
        MemoryOutcome::ProcessNotFound => {
            let mut t = string_from("Error: Process ");
            push_decimal(&mut t, pid as u128);
            push_str(&mut t, " not found\n");
            t
        },
        MemoryOutcome::Failed => if free {
            string_from("Error: Free failed\n")
        } else {
            string_from("Error: Allocation failed\n")
        },
    }
}

/// How the kernel answered a send: delivered, no endpoint at the target, or
/// another error (with its description).
#[derive(Clone, Debug)]
pub enum SendOutcome {
    Sent,
    NoEndpoint,
    Other(String),
}

/// The outcome of sending `message` to `pid`.
pub open spec fn send_text(pid: u64, message: Seq<char>, outcome: SendOutcome) -> Seq<char> {
    match outcome {
        SendOutcome::Sent => "Sent "@ + decimal(vstd::utf8::encode_utf8(message).len()) + " bytes to PID "@
            + decimal(pid as nat) + "\n"@,
        SendOutcome::NoEndpoint => "Error: PID "@ + decimal(pid as nat) + " has no endpoint\n"@,
        SendOutcome::Other(e) => "Error: "@ + e@ + "\n"@,
    }
}

/// Write the outcome of a send.
pub fn send_line(pid: u64, message: &str, outcome: &SendOutcome) -> (t: String)
    ensures
        t@ == send_text(pid, message@, *outcome),
{
    match outcome {
        SendOutcome::Sent => {
            let mut t = string_from("Sent ");
            let n = message.as_bytes().len();
            push_decimal(&mut t, n as u128);
            push_str(&mut t, " bytes to PID ");
            push_decimal(&mut t, pid as u128);
            push_str(&mut t, "\n");
            t
        },
        SendOutcome::NoEndpoint => {
            let mut t = string_from("Error: PID ");
            push_decimal(&mut t, pid as u128);
            push_str(&mut t, " has no endpoint\n");
            t
        },
        SendOutcome::Other(e) => {
            let mut t = string_from("Error: ");
            push_str(&mut t, e.as_str());
            push_str(&mut t, "\n");
            t
        },
    }
}

/// The outcome of a grant: the new slot, or the kernel's error description.
pub open spec fn grant_text(from_pid: u64, to_pid: u64, slot: u32, outcome: Result<u32, Seq<char>>) -> Seq<
    char,
> {
    match outcome {
        Ok(new_slot) => "Granted capability from PID "@ + decimal(from_pid as nat) + " slot "@ + decimal(
            slot as nat,
        ) + " to PID "@ + decimal(to_pid as nat) + " (new slot "@ + decimal(new_slot as nat) + ")\n"@,
        Err(e) => "Error: "@ + e + "\n"@,
    }
}

/// Write the outcome of a grant.
pub fn grant_line(from_pid: u64, to_pid: u64, slot: u32, outcome: &Result<u32, String>) -> (t: String)
    ensures
        t@ == grant_text(
            from_pid,
            to_pid,
            slot,
            match outcome {
                Ok(n) => Ok(*n),
                Err(e) => Err(e@),
            },
        ),
{
    match outcome {
        Ok(new_slot) => {
            let mut t = string_from("Granted capability from PID ");
            push_decimal(&mut t, from_pid as u128);
            push_str(&mut t, " slot ");
            push_decimal(&mut t, slot as u128);
            push_str(&mut t, " to PID ");
            push_decimal(&mut t, to_pid as u128);
            push_str(&mut t, " (new slot ");
            push_decimal(&mut t, *new_slot as u128);
            push_str(&mut t, ")\n");
            t
        },
        Err(e) => {
            let mut t = string_from("Error: ");
            push_str(&mut t, e.as_str());
            push_str(&mut t, "\n");
            t
        },
    }
}

/// The kinds of kernel objects a capability can name.
#[derive(Clone, Copy, Debug, PartialEq, Eq, Structural)]
pub enum KernelObject {
    Endpoint,
    Process,
    Memory,
    Irq,
    IoPort,
    Console,
}

/// The name the capability table shows for a kind of object.
pub open spec fn kernel_object_name(k: KernelObject) -> Seq<char> {
    match k {
        KernelObject::Endpoint => "Endpoint"@,
        KernelObject::Process => "Process"@,
        KernelObject::Memory => "Memory"@,
        KernelObject::Irq => "IRQ"@,
        KernelObject::IoPort => "I/O Port"@,
        KernelObject::Console => "Console"@,
    }
}

/// One capability of the terminal.
#[derive(Clone, Copy, Debug)]
pub struct CapRow {
    pub slot: u32,
    pub object: KernelObject,
    pub read: bool,
    pub write: bool,
    pub grant: bool,
    pub object_id: u64,
}

/// A row of the capability table: slot (5 wide), type (9 wide), the
/// permission letters (R, W, G or '-') and the object id.
pub open spec fn cap_row_text(c: CapRow) -> Seq<char> {
    crate::words::pad_right(decimal(c.slot as nat), 5) + " "@ + crate::words::pad_right(
        kernel_object_name(c.object),
        9,
    ) + " "@ + seq![
        if c.read {
            'R'
        } else {
            '-'
        },
        if c.write {
            'W'
        } else {
            '-'
        },
        if c.grant {
            'G'
        } else {
            '-'
        },
    ] + "    "@ + decimal(c.object_id as nat) + "\n"@
}

/// The capability table: a header, then a row per capability.
pub open spec fn caps_table(rows: Seq<CapRow>) -> Seq<char>
    decreases rows.len(),
{
    if rows.len() == 0 {
        "SLOT  TYPE      PERMS  OBJECT\n"@ + "----  ----      -----  ------\n"@
    } else {
        caps_table(rows.drop_last()) + cap_row_text(rows.last())
    }
}

fn object_name(k: KernelObject) -> (s: &'static str)
    ensures
        s@ == kernel_object_name(k),
{
    match k {
        KernelObject::Endpoint => "Endpoint",
        KernelObject::Process => "Process",
        KernelObject::Memory => "Memory",
        KernelObject::Irq => "IRQ",
        KernelObject::IoPort => "I/O Port",
        KernelObject::Console => "Console",
    }
}

/// Write the capability table.
pub fn caps_lines(rows: &[CapRow]) -> (t: String)
    ensures
        t@ == caps_table(rows@),
{
    let mut t = string_from("SLOT  TYPE      PERMS  OBJECT\n");
    push_str(&mut t, "----  ----      -----  ------\n");
    let mut i: usize = 0;
    assert(rows@.take(0) =~= Seq::<CapRow>::empty());
    while i < rows.len()
        invariant
            i <= rows@.len(),
            t@ == caps_table(rows@.take(i as int)),
        decreases rows@.len() - i,
    {
        let c = rows[i];
        let ghost before = t@;
        let slot = crate::words::decimal_chars(c.slot as u128);
        crate::words::push_padded_right(&mut t, slot.as_slice(), 5);
        push_str(&mut t, " ");
        let name = chars_of(object_name(c.object));
        crate::words::push_padded_right(&mut t, name.as_slice(), 9);
        push_str(&mut t, " ");
        let mut perms = String::new();
        crate::text::string_push(&mut perms, if c.read { 'R' } else { '-' });
        crate::text::string_push(&mut perms, if c.write { 'W' } else { '-' });
        crate::text::string_push(&mut perms, if c.grant { 'G' } else { '-' });
        push_str(&mut t, perms.as_str());
        push_str(&mut t, "    ");
        push_decimal(&mut t, c.object_id as u128);
        push_str(&mut t, "\n");
        assert(rows@.take(i + 1).drop_last() =~= rows@.take(i as int));
        assert(t@ =~= before + cap_row_text(c));
        i = i + 1;
    }
    assert(rows@.take(rows@.len() as int) =~= rows@);
    t
}

/// The bytes kept when text is cut to `max` bytes: three fewer, to make
/// room for the ellipsis.
pub open spec fn kept_bytes(max: nat) -> int {
    max - 3
}

/// The largest position at most `k` in `b` that falls between characters.
pub open spec fn boundary_at_most(b: Seq<u8>, k: int) -> int
    decreases k,
{
    if k <= 0 {
        0
    } else if vstd::utf8::is_char_boundary(b, k) {
        k
    } else {
        boundary_at_most(b, k - 1)
    }
}

/// Text of at most `max` bytes unchanged; longer text cut to its first
/// `max - 3` bytes and followed by "..."; when `max` is below three there
/// is no room for the ellipsis, and the text is cut to its longest prefix
/// of at most `max` bytes that ends between characters.
pub open spec fn truncate_spec(s: Seq<char>, max: nat) -> Seq<char> {
    let b = vstd::utf8::encode_utf8(s);
    if b.len() <= max {
        s
    } else if max >= 3 {
        vstd::utf8::decode_utf8(b.take(kept_bytes(max))) + "..."@
    } else {
        vstd::utf8::decode_utf8(b.take(boundary_at_most(b, max as int)))
    }
}

/// The encoding of two texts one after the other is their encodings one
/// after the other.
proof fn lemma_encode_concat(a: Seq<char>, b: Seq<char>)
    ensures
        vstd::utf8::encode_utf8(a + b) == vstd::utf8::encode_utf8(a) + vstd::utf8::encode_utf8(b),
    decreases a.len(),
{
    if a.len() > 0 {
        assert((a + b).drop_first() =~= a.drop_first() + b);
        assert((a + b)[0] == a[0]);
        lemma_encode_concat(a.drop_first(), b);
        assert(vstd::utf8::encode_utf8(a + b) =~= vstd::utf8::encode_utf8(a) + vstd::utf8::encode_utf8(b));
    } else {
        assert(a + b =~= b);
    }
}

/// Truncate a string to a maximum length in bytes (see `truncate_spec`);
/// with room for the ellipsis, the cut must fall between characters. The
/// result never holds more than `max` bytes.
pub fn truncate(s: &str, max: usize) -> (r: String)
    requires
        vstd::utf8::encode_utf8(s@).len() > max && max >= 3 ==> vstd::utf8::is_char_boundary(
            vstd::utf8::encode_utf8(s@),
            kept_bytes(max as nat),
        ),
    ensures
        r@ == truncate_spec(s@, max as nat),
        vstd::utf8::encode_utf8(r@).len() <= max,
{
    let b = s.as_bytes();
    if b.len() <= max {
        return string_from(s);
    }
    let keep: usize = if max >= 3 {
        max - 3
    } else {
        let mut k: usize = max;
        while k > 0 && !s.is_char_boundary(k)
            invariant
                k <= max < b@.len(),
                b@ == vstd::utf8::encode_utf8(s@),
                boundary_at_most(b@, max as int) == boundary_at_most(b@, k as int),
            decreases k,
        {
            k = k - 1;
        }
        proof {
            vstd::utf8::encode_utf8_valid_utf8(s@);
            vstd::utf8::is_char_boundary_start_end_of_seq(b@);
        }
        k
    };
    proof {
        vstd::utf8::encode_utf8_valid_utf8(s@);
    }
    assert(vstd::utf8::is_char_boundary(b@, keep as int));
    let head = crate::wire::copy_range(b, 0, keep);
    proof {
        vstd::utf8::encode_utf8_valid_utf8(s@);
        vstd::utf8::valid_utf8_split(b@, keep as int);
        assert(b@.subrange(0, keep as int) =~= b@.take(keep as int));
        vstd::utf8::decode_utf8_encode_utf8(b@.take(keep as int));
    }
    let mut r = crate::wire::string_from_utf8(head).unwrap();
    let ghost kept = r@;
    if max >= 3 {
        push_str(&mut r, "...");
        proof {
            reveal_strlit("...");
            lemma_encode_concat(kept, "..."@);
            vstd::utf8::is_ascii_chars_encode_utf8("..."@);
        }
    }
    r
}

// ============================================================================
// Kernel tables
// ============================================================================

/// A process's scheduling state.
#[derive(Clone, Copy, Debug, PartialEq, Eq, Structural)]
pub enum ProcState {
    Running,
    Blocked,
    Zombie,
}

/// The number a state is sent as: the states in the order they are
/// declared, from 0.
pub open spec fn state_code(s: ProcState) -> u8 {
    match s {
        ProcState::Running => 0,
        ProcState::Blocked => 1,
        ProcState::Zombie => 2,
    }
}

/// The state's name in listings.
pub open spec fn state_name(s: ProcState) -> Seq<char> {
    match s {
        ProcState::Running => "Running"@,
        ProcState::Blocked => "Blocked"@,
        ProcState::Zombie => "Zombie"@,
    }
}

fn state_str(s: ProcState) -> (r: &'static str)
    ensures
        r@ == state_name(s),
{
    match s {
        ProcState::Running => "Running",
        ProcState::Blocked => "Blocked",
        ProcState::Zombie => "Zombie",
    }
}

/// A process as the process list shows it.
#[derive(Clone, Debug)]
pub struct ProcessRow {
    pub pid: u64,
    pub state: ProcState,
    pub memory_size: usize,
    /// The browser worker's id; 0 for a virtual process.
    pub worker_id: u64,
    pub name: String,
}

/// `W` and the low 32 bits of the worker id in 8 hex digits, or "virtual".
pub open spec fn worker_text(worker_id: u64) -> Seq<char> {
    if worker_id > 0 {
        seq!['W'] + crate::service::hex8((worker_id % 0x1_0000_0000) as u32)
    } else {
        "virtual"@
    }
}

/// A row of the process list.
pub open spec fn ps_row_text(r: ProcessRow) -> Seq<char> {
    crate::words::pad_right(decimal(r.pid as nat), 4) + " "@ + crate::words::pad_right(state_name(r.state), 8)
        + " "@ + crate::words::pad_left(decimal((r.memory_size / 1024) as nat), 6, ' ') + " KB  "@
        + crate::words::pad_right(worker_text(r.worker_id), 10) + "  "@ + r.name@ + "\n"@
}

/// The process list: a header, then a row per process.
pub open spec fn ps_table(rows: Seq<ProcessRow>) -> Seq<char>
    decreases rows.len(),
{
    if rows.len() == 0 {
        "PID  STATE    MEMORY     WORKER      NAME\n"@ + "---  -----    ------     ------      ----\n"@
    } else {
        ps_table(rows.drop_last()) + ps_row_text(rows.last())
    }
}

fn push_decimal_right(s: &mut String, n: u64, width: usize)
    ensures
        final(s)@ == old(s)@ + crate::words::pad_right(decimal(n as nat), width as nat),
{
    let d = crate::words::decimal_chars(n as u128);
    crate::words::push_padded_right(s, d.as_slice(), width);
}

fn push_decimal_left(s: &mut String, n: u64, width: usize)
    ensures
        final(s)@ == old(s)@ + crate::words::pad_left(decimal(n as nat), width as nat, ' '),
{
    let d = crate::words::decimal_chars(n as u128);
    crate::words::push_padded_left(s, d.as_slice(), width, ' ');
}

fn push_text_right(s: &mut String, t: &str, width: usize)
    ensures
        final(s)@ == old(s)@ + crate::words::pad_right(t@, width as nat),
{
    let cs = chars_of(t);
    crate::words::push_padded_right(s, cs.as_slice(), width);
}

fn worker_string(worker_id: u64) -> (t: String)
    ensures
        t@ == worker_text(worker_id),
{
    if worker_id > 0 {
        let mut t = string_from("W");
        let low = (worker_id & 0xFFFF_FFFF) as u32;
        assert(worker_id & 0xFFFF_FFFF == worker_id % 0x1_0000_0000) by (bit_vector);
        crate::service::push_hex8(&mut t, low);
        proof {
            reveal_strlit("W");
        }
        assert(t@ =~= worker_text(worker_id));
        t
    } else {
        string_from("virtual")
    }
}

/// Write the process list.
pub fn ps_lines(rows: &[ProcessRow]) -> (t: String)
    ensures
        t@ == ps_table(rows@),
{
    let mut t = string_from("PID  STATE    MEMORY     WORKER      NAME\n");
    push_str(&mut t, "---  -----    ------     ------      ----\n");
    let mut i: usize = 0;
    assert(rows@.take(0) =~= Seq::<ProcessRow>::empty());
    while i < rows.len()
        invariant
            i <= rows@.len(),
            t@ == ps_table(rows@.take(i as int)),
        decreases rows@.len() - i,
    {
        let r = &rows[i];
        let ghost before = t@;
        push_decimal_right(&mut t, r.pid, 4);
        push_str(&mut t, " ");
        push_text_right(&mut t, state_str(r.state), 8);
        push_str(&mut t, " ");
        push_decimal_left(&mut t, (r.memory_size / 1024) as u64, 6);
        push_str(&mut t, " KB  ");
        let w = worker_string(r.worker_id);
        push_text_right(&mut t, w.as_str(), 10);
        push_str(&mut t, "  ");
        push_str(&mut t, r.name.as_str());
        push_str(&mut t, "\n");
        assert(rows@.take(i + 1).drop_last() =~= rows@.take(i as int));
        assert(t@ =~= before + ps_row_text(*r));
        i = i + 1;
    }
    assert(rows@.take(rows@.len() as int) =~= rows@);
    t
}

/// The memory share of a process, in whole percent of the total.
pub open spec fn percent_of(part: usize, total: usize) -> int {
    if total > 0 {
        (part * 100) / (total as int)
    } else {
        0
    }
}

/// A row of the memory table.
pub open spec fn memstat_row_text(r: ProcessRow, total: usize) -> Seq<char> {
    crate::words::pad_right(decimal(r.pid as nat), 4) + " "@ + crate::words::pad_left(
        decimal((r.memory_size / 1024) as nat),
        6,
        ' ',
    ) + " KB "@ + crate::words::pad_left(decimal(percent_of(r.memory_size, total) as nat), 3, ' ')
        + "%  "@ + r.name@ + "\n"@
}

/// The memory table: the total, a header, then a row per process.
pub open spec fn memstat_table(total: usize, rows: Seq<ProcessRow>) -> Seq<char>
    decreases rows.len(),
{
    if rows.len() == 0 {
        "Total System Memory: "@ + decimal((total / 1024) as nat) + " KB ("@ + decimal(total as nat)
            + " bytes)\n\n"@ + "PID  MEMORY        PROCESS\n"@ + "---  ------        -------\n"@
    } else {
        memstat_table(total, rows.drop_last()) + memstat_row_text(rows.last(), total)
    }
}

/// Write the memory table. Each process's memory times 100 fits in a
/// `usize`.
#[verifier::spinoff_prover]
#[verifier::rlimit(30)]
pub fn memstat_lines(total: usize, rows: &[ProcessRow]) -> (t: String)
    requires
        forall|i: int| 0 <= i < rows@.len() ==> rows@[i].memory_size * 100 <= usize::MAX,
    ensures
        t@ == memstat_table(total, rows@),
{
    let mut t = string_from("Total System Memory: ");
    push_decimal(&mut t, (total / 1024) as u128);
    push_str(&mut t, " KB (");
    push_decimal(&mut t, total as u128);
    push_str(&mut t, " bytes)\n\n");
    push_str(&mut t, "PID  MEMORY        PROCESS\n");
    push_str(&mut t, "---  ------        -------\n");
    let mut i: usize = 0;
    assert(rows@.take(0) =~= Seq::<ProcessRow>::empty());
    while i < rows.len()
        invariant
            i <= rows@.len(),
            t@ == memstat_table(total, rows@.take(i as int)),
            forall|i: int| 0 <= i < rows@.len() ==> rows@[i].memory_size * 100 <= usize::MAX,
        decreases rows@.len() - i,
    {
        let r = &rows[i];
        let ghost before = t@;
        let pct: usize = if total > 0 {
            r.memory_size * 100 / total
        } else {
            0
        };
        push_decimal_right(&mut t, r.pid, 4);
        push_str(&mut t, " ");
        push_decimal_left(&mut t, (r.memory_size / 1024) as u64, 6);
        push_str(&mut t, " KB ");
        push_decimal_left(&mut t, pct as u64, 3);
        push_str(&mut t, "%  ");
        push_str(&mut t, r.name.as_str());
        push_str(&mut t, "\n");
        assert(rows@.take(i + 1).drop_last() =~= rows@.take(i as int));
        assert(t@ =~= before + memstat_row_text(*r, total));
        i = i + 1;
    }
    assert(rows@.take(rows@.len() as int) =~= rows@);
    t
}

/// What `inspect` shows of a process.
#[derive(Clone, Debug)]
pub struct ProcessDetail {
    pub name: String,
    pub state: ProcState,
    pub memory_size: usize,
    pub start_time_ns: u64,
    pub syscall_count: u64,
    pub ipc_sent: u64,
    pub ipc_bytes_sent: u64,
    pub ipc_received: u64,
    pub ipc_bytes_received: u64,
    /// The number of capabilities, when the process has a capability space.
    pub caps: Option<usize>,
}

/// The details of a process at `uptime_ns`, or the error when there is
/// no such process.
pub open spec fn inspect_text(pid: u64, uptime_ns: u64, p: Option<ProcessDetail>) -> Seq<char> {
    match p {
        None => "Error: Process "@ + decimal(pid as nat) + " not found\n"@,
        Some(d) => "Process "@ + decimal(pid as nat) + "\n"@ + "  Name:      "@ + d.name@ + "\n"@
            + "  State:     "@ + state_name(d.state) + "\n"@ + "  Memory:    "@ + decimal(
            (d.memory_size / 1024) as nat,
        ) + " KB ("@ + decimal(d.memory_size as nat) + " bytes)\n"@ + "  Age:       "@ + decimal(
            ((uptime_ns - d.start_time_ns) / 1_000_000_000) as nat,
        ) + "s\n"@ + "  Syscalls:  "@ + decimal(d.syscall_count as nat) + "\n"@ + "  IPC Sent:  "@
            + decimal(d.ipc_sent as nat) + " msgs, "@ + decimal(d.ipc_bytes_sent as nat) + " bytes\n"@
            + "  IPC Recv:  "@ + decimal(d.ipc_received as nat) + " msgs, "@ + decimal(
            d.ipc_bytes_received as nat,
        ) + " bytes\n"@ + match d.caps {
            Some(k) => "  Caps:      "@ + decimal(k as nat) + "\n"@,
            None => Seq::empty(),
        },
    }
}

/// Write the details of a process; it started no later than `uptime_ns`.
pub fn inspect_lines(pid: u64, uptime_ns: u64, p: &Option<ProcessDetail>) -> (t: String)
    requires
        p matches Some(d) ==> d.start_time_ns <= uptime_ns,
    ensures
        t@ == inspect_text(pid, uptime_ns, *p),
{
    match p {
        None => {
            let mut t = string_from("Error: Process ");
            push_decimal(&mut t, pid as u128);
            push_str(&mut t, " not found\n");
            t
        },
        Some(d) => {
            let mut t = string_from("Process ");
            push_decimal(&mut t, pid as u128);
            push_str(&mut t, "\n");
            push_str(&mut t, "  Name:      ");
            push_str(&mut t, d.name.as_str());
            push_str(&mut t, "\n");
            push_str(&mut t, "  State:     ");
            push_str(&mut t, state_str(d.state));
            push_str(&mut t, "\n");
            push_str(&mut t, "  Memory:    ");
            push_decimal(&mut t, (d.memory_size / 1024) as u128);
            push_str(&mut t, " KB (");
            push_decimal(&mut t, d.memory_size as u128);
            push_str(&mut t, " bytes)\n");
            push_str(&mut t, "  Age:       ");
            push_decimal(&mut t, ((uptime_ns - d.start_time_ns) / 1_000_000_000) as u128);
            push_str(&mut t, "s\n");
            push_str(&mut t, "  Syscalls:  ");
            push_decimal(&mut t, d.syscall_count as u128);
            push_str(&mut t, "\n");
            push_str(&mut t, "  IPC Sent:  ");
            push_decimal(&mut t, d.ipc_sent as u128);
            push_str(&mut t, " msgs, ");
            push_decimal(&mut t, d.ipc_bytes_sent as u128);
            push_str(&mut t, " bytes\n");
            push_str(&mut t, "  IPC Recv:  ");
            push_decimal(&mut t, d.ipc_received as u128);
            push_str(&mut t, " msgs, ");
            push_decimal(&mut t, d.ipc_bytes_received as u128);
            push_str(&mut t, " bytes\n");
            let ghost before = t@;
            match d.caps {
                Some(k) => {
                    push_str(&mut t, "  Caps:      ");
                    push_decimal(&mut t, k as u128);
                    push_str(&mut t, "\n");
                },
                None => {
                    assert(t@ =~= before + Seq::<char>::empty());
                },
            }
            t
        },
    }
}

/// An uppercase hex digit.
pub open spec fn upper_hex_digit(v: nat) -> char {
    if v < 10 {
        (('0' as u8) + v) as char
    } else {
        (('A' as u8) + (v - 10)) as char
    }
}

/// `n` in uppercase hex without leading zeros ("0" for zero).
pub open spec fn upper_hex(n: nat) -> Seq<char>
    decreases n,
{
    if n < 16 {
        seq![upper_hex_digit(n)]
    } else {
        upper_hex(n / 16) + seq![upper_hex_digit(n % 16)]
    }
}

fn push_upper_hex(s: &mut String, n: u64)
    ensures
        final(s)@ == old(s)@ + upper_hex(n as nat),
    decreases n,
{
    if n >= 16 {
        push_upper_hex(s, n / 16);
    }
    let v = (n % 16) as u8;
    let c = if v < 10 {
        (('0' as u8) + v) as char
    } else {
        (('A' as u8) + (v - 10)) as char
    };
    crate::text::string_push(s, c);
}

/// `0x` and a tag in uppercase hex, at least four digits.
pub open spec fn tag_text(tag: u32) -> Seq<char> {
    "0x"@ + crate::words::pad_left(upper_hex(tag as nat), 4, '0')
}

fn push_tag(s: &mut String, tag: u32)
    ensures
        final(s)@ == old(s)@ + tag_text(tag),
{
    push_str(s, "0x");
    let mut digits = String::new();
    push_upper_hex(&mut digits, tag as u64);
    let cs = chars_of(digits.as_str());
    crate::words::push_padded_left(s, cs.as_slice(), 4, '0');
}

/// A message waiting in an endpoint's queue.
#[derive(Clone, Copy, Debug)]
pub struct QueuedMessage {
    pub from_pid: u64,
    pub tag: u32,
    pub size: usize,
}

/// An endpoint as `queue` shows it.
#[derive(Clone, Debug)]
pub struct EndpointDetail {
    pub owner_pid: u64,
    /// The owner's name, when the owner still exists.
    pub owner_name: Option<String>,
    pub queue_depth: usize,
    pub total_messages: u64,
    pub total_bytes: u64,
    pub queued: Vec<QueuedMessage>,
}

/// A row of the queue listing.
pub open spec fn queued_row_text(m: QueuedMessage) -> Seq<char> {
    crate::words::pad_right(decimal(m.from_pid as nat), 5) + "  "@ + tag_text(m.tag) + "     "@ + decimal(
        m.size as nat,
    ) + " bytes\n"@
}

/// The queued messages' rows.
pub open spec fn queued_rows(ms: Seq<QueuedMessage>) -> Seq<char>
    decreases ms.len(),
{
    if ms.len() == 0 {
        Seq::empty()
    } else {
        queued_rows(ms.drop_last()) + queued_row_text(ms.last())
    }
}

/// An endpoint's queue, or the error when there is no such endpoint.
pub open spec fn queue_text(endpoint_id: u64, e: Option<EndpointDetail>) -> Seq<char> {
    match e {
        None => "Error: Endpoint "@ + decimal(endpoint_id as nat) + " not found\n"@,
        Some(d) => "Endpoint "@ + decimal(endpoint_id as nat) + " (owner: PID "@ + decimal(d.owner_pid as nat)
            + " - "@ + match d.owner_name {
            Some(n) => n@,
            None => "???"@,
        } + ")\n"@ + "Queue depth: "@ + decimal(d.queue_depth as nat) + ", Total msgs: "@ + decimal(
            d.total_messages as nat,
        ) + ", Total bytes: "@ + decimal(d.total_bytes as nat) + "\n\n"@ + if d.queued@.len() == 0 {
            "(queue empty)\n"@
        } else {
            "FROM   TAG        SIZE\n"@ + "----   ---        ----\n"@ + queued_rows(d.queued@)
        },
    }
}

/// Write an endpoint's queue.
pub fn queue_lines(endpoint_id: u64, e: &Option<EndpointDetail>) -> (t: String)
    ensures
        t@ == queue_text(endpoint_id, *e),
{
    match e {
        None => {
            let mut t = string_from("Error: Endpoint ");
            push_decimal(&mut t, endpoint_id as u128);
            push_str(&mut t, " not found\n");
            t
        },
        Some(d) => {
            let mut t = string_from("Endpoint ");
            push_decimal(&mut t, endpoint_id as u128);
            push_str(&mut t, " (owner: PID ");
            push_decimal(&mut t, d.owner_pid as u128);
            push_str(&mut t, " - ");
            match &d.owner_name {
                Some(n) => push_str(&mut t, n.as_str()),
                None => push_str(&mut t, "???"),
            }
            push_str(&mut t, ")\n");
            push_str(&mut t, "Queue depth: ");
            push_decimal(&mut t, d.queue_depth as u128);
            push_str(&mut t, ", Total msgs: ");
            push_decimal(&mut t, d.total_messages as u128);
            push_str(&mut t, ", Total bytes: ");
            push_decimal(&mut t, d.total_bytes as u128);
            push_str(&mut t, "\n\n");
            if d.queued.len() == 0 {
                push_str(&mut t, "(queue empty)\n");
            } else {
                push_str(&mut t, "FROM   TAG        SIZE\n");
                push_str(&mut t, "----   ---        ----\n");
                let ghost head = t@;
                let mut i: usize = 0;
                assert(d.queued@.take(0) =~= Seq::<QueuedMessage>::empty());
                while i < d.queued.len()
                    invariant
                        i <= d.queued@.len(),
                        t@ == head + queued_rows(d.queued@.take(i as int)),
                    decreases d.queued@.len() - i,
                {
                    let m = d.queued[i];
                    let ghost before = t@;
                    push_decimal_right(&mut t, m.from_pid, 5);
                    push_str(&mut t, "  ");
                    push_tag(&mut t, m.tag);
                    push_str(&mut t, "     ");
                    push_decimal(&mut t, m.size as u128);
                    push_str(&mut t, " bytes\n");
                    assert(d.queued@.take(i + 1).drop_last() =~= d.queued@.take(i as int));
                    assert(t@ =~= before + queued_row_text(m));
                    i = i + 1;
                }
                assert(d.queued@.take(d.queued@.len() as int) =~= d.queued@);
            }
            t
        },
    }
}

/// One recorded IPC message.
#[derive(Clone, Copy, Debug)]
pub struct TrafficEntry {
    pub timestamp_ns: u64,
    pub from_pid: u64,
    pub to_pid: u64,
    pub endpoint_id: u64,
    pub tag: u32,
    pub size: usize,
}

/// A row of the IPC log.
pub open spec fn traffic_row_text(e: TrafficEntry) -> Seq<char> {
    crate::words::pad_left(decimal((e.timestamp_ns / 1_000_000) as nat), 7, ' ') + "    "@
        + crate::words::pad_right(decimal(e.from_pid as nat), 5) + "  "@ + crate::words::pad_right(
        decimal(e.to_pid as nat),
        5,
    ) + "  "@ + crate::words::pad_right(decimal(e.endpoint_id as nat), 4) + "  "@ + tag_text(e.tag)
        + "   "@ + decimal(e.size as nat) + " bytes\n"@
}

/// The log rows.
pub open spec fn traffic_rows(es: Seq<TrafficEntry>) -> Seq<char>
    decreases es.len(),
{
    if es.len() == 0 {
        Seq::empty()
    } else {
        traffic_rows(es.drop_last()) + traffic_row_text(es.last())
    }
}

/// The recent IPC traffic.
pub open spec fn ipclog_text(es: Seq<TrafficEntry>) -> Seq<char> {
    if es.len() == 0 {
        "No IPC traffic recorded yet.\n"@
    } else {
        "Recent IPC Traffic (last "@ + decimal(es.len()) + " messages):\n\n"@
            + "TIME_MS    FROM   TO     EP    TAG      SIZE\n"@
            + "-------    ----   --     --    ---      ----\n"@ + traffic_rows(es)
    }
}

/// Write the recent IPC traffic.
pub fn ipclog_lines(es: &[TrafficEntry]) -> (t: String)
    ensures
        t@ == ipclog_text(es@),
{
    if es.len() == 0 {
        return string_from("No IPC traffic recorded yet.\n");
    }
    let mut t = string_from("Recent IPC Traffic (last ");
    push_decimal(&mut t, es.len() as u128);
    push_str(&mut t, " messages):\n\n");
    push_str(&mut t, "TIME_MS    FROM   TO     EP    TAG      SIZE\n");
    push_str(&mut t, "-------    ----   --     --    ---      ----\n");
    let ghost head = t@;
    let mut i: usize = 0;
    assert(es@.take(0) =~= Seq::<TrafficEntry>::empty());
    while i < es.len()
        invariant
            i <= es@.len(),
            t@ == head + traffic_rows(es@.take(i as int)),
        decreases es@.len() - i,
    {
        let e = es[i];
        let ghost before = t@;
        push_decimal_left(&mut t, e.timestamp_ns / 1_000_000, 7);
        push_str(&mut t, "    ");
        push_decimal_right(&mut t, e.from_pid, 5);
        push_str(&mut t, "  ");
        push_decimal_right(&mut t, e.to_pid, 5);
        push_str(&mut t, "  ");
        push_decimal_right(&mut t, e.endpoint_id, 4);
        push_str(&mut t, "  ");
        push_tag(&mut t, e.tag);
        push_str(&mut t, "   ");
        push_decimal(&mut t, e.size as u128);
        push_str(&mut t, " bytes\n");
        assert(es@.take(i + 1).drop_last() =~= es@.take(i as int));
        assert(t@ =~= before + traffic_row_text(e));
        i = i + 1;
    }
    assert(es@.take(es@.len() as int) =~= es@);
    t
}

// ============================================================================
// Status, endpoint and IPC tables
// ============================================================================

fn push_text_left(s: &mut String, t: &str, width: usize)
    ensures
        final(s)@ == old(s)@ + crate::words::pad_left(t@, width as nat, ' '),
{
    let cs = chars_of(t);
    crate::words::push_padded_left(s, cs.as_slice(), width, ' ');
}

/// The system figures the status view shows (byte counts come as text).
#[derive(Clone, Copy, Debug)]
pub struct SystemStatus {
    pub uptime_ns: u64,
    pub process_count: usize,
    pub endpoint_count: usize,
    pub pending_messages: usize,
    pub ipc_messages: u64,
}

/// A process as the status view shows it.
#[derive(Clone, Debug)]
pub struct StatusRow {
    pub pid: u64,
    pub state: ProcState,
    pub memory_size: usize,
    pub ipc_sent: u64,
    pub ipc_received: u64,
    pub name: String,
}

/// The state's short name in the status view.
pub open spec fn short_state_name(s: ProcState) -> Seq<char> {
    match s {
        ProcState::Running => "Run"@,
        ProcState::Blocked => "Blk"@,
        ProcState::Zombie => "Zmb"@,
    }
}

fn short_state_str(s: ProcState) -> (r: &'static str)
    ensures
        r@ == short_state_name(s),
{
    match s {
        ProcState::Running => "Run",
        ProcState::Blocked => "Blk",
        ProcState::Zombie => "Zmb",
    }
}

/// A row of the status view's process table.
pub open spec fn status_row_text(r: StatusRow) -> Seq<char> {
    crate::words::pad_right(decimal(r.pid as nat), 4) + " "@ + crate::words::pad_right(short_state_name(r.state), 8)
        + " "@ + crate::words::pad_left(decimal((r.memory_size / 1024) as nat), 6, ' ') + " KB  "@
        + crate::words::pad_left(decimal(r.ipc_sent as nat), 6, ' ') + "   "@ + crate::words::pad_left(
        decimal(r.ipc_received as nat),
        6,
        ' ',
    ) + "   "@ + r.name@ + "\n"@
}

/// The status view's figures and the process table's header; `memory` is
/// the total memory as text.
pub open spec fn status_head(m: SystemStatus, memory: Seq<char>) -> Seq<char> {
    "=== Orbital Kernel Status ===\n\n"@ + "Uptime:            "@ + decimal((m.uptime_ns / 1_000_000_000) as nat)
        + "."@ + zero_padded(((m.uptime_ns % 1_000_000_000) / 1_000_000) as nat, 3) + "s\n"@
        + "Processes:         "@ + decimal(m.process_count as nat) + "\n"@ + "Endpoints:         "@
        + decimal(m.endpoint_count as nat) + "\n"@ + "Total Memory:      "@ + memory + "\n"@
        + "Pending IPC:       "@ + decimal(m.pending_messages as nat) + " messages\n"@
        + "Total IPC:         "@ + decimal(m.ipc_messages as nat) + " messages\n"@ + "\n--- Processes ---\n"@
        + "PID  STATE    MEMORY     IPC_TX   IPC_RX   NAME\n"@ + "---  -----    ------     ------   ------   ----\n"@
}

/// The status view: the figures, then a row per process.
pub open spec fn status_table(m: SystemStatus, memory: Seq<char>, rows: Seq<StatusRow>) -> Seq<char>
    decreases rows.len(),
{
    if rows.len() == 0 {
        status_head(m, memory)
    } else {
        status_table(m, memory, rows.drop_last()) + status_row_text(rows.last())
    }
}

fn push_status_row(t: &mut String, r: &StatusRow)
    ensures
        final(t)@ == old(t)@ + status_row_text(*r),
{
    let mut row = String::new();
    push_decimal_right(&mut row, r.pid, 4);
    assert(row@ =~= crate::words::pad_right(decimal(r.pid as nat), 4));
    push_str(&mut row, " ");
    push_text_right(&mut row, short_state_str(r.state), 8);
    push_str(&mut row, " ");
    push_decimal_left(&mut row, (r.memory_size / 1024) as u64, 6);
    push_str(&mut row, " KB  ");
    push_decimal_left(&mut row, r.ipc_sent, 6);
    push_str(&mut row, "   ");
    push_decimal_left(&mut row, r.ipc_received, 6);
    push_str(&mut row, "   ");
    push_str(&mut row, r.name.as_str());
    push_str(&mut row, "\n");
    push_str(t, row.as_str());
}

/// Write the status view (see `status_table`).
pub fn status_lines(m: &SystemStatus, memory: &str, rows: &[StatusRow]) -> (t: String)
    ensures
        t@ == status_table(*m, memory@, rows@),
{
    let mut t = string_from("=== Orbital Kernel Status ===\n\n");
    push_str(&mut t, "Uptime:            ");
    push_decimal(&mut t, (m.uptime_ns / 1_000_000_000) as u128);
    push_str(&mut t, ".");
    push_zero_padded(&mut t, (m.uptime_ns % 1_000_000_000) / 1_000_000, 3);
    push_str(&mut t, "s\n");
    push_str(&mut t, "Processes:         ");
    push_decimal(&mut t, m.process_count as u128);
    push_str(&mut t, "\n");
    push_str(&mut t, "Endpoints:         ");
    push_decimal(&mut t, m.endpoint_count as u128);
    push_str(&mut t, "\n");
    push_str(&mut t, "Total Memory:      ");
    push_str(&mut t, memory);
    push_str(&mut t, "\n");
    push_str(&mut t, "Pending IPC:       ");
    push_decimal(&mut t, m.pending_messages as u128);
    push_str(&mut t, " messages\n");
    push_str(&mut t, "Total IPC:         ");
    push_decimal(&mut t, m.ipc_messages as u128);
    push_str(&mut t, " messages\n");
    push_str(&mut t, "\n--- Processes ---\n");
    push_str(&mut t, "PID  STATE    MEMORY     IPC_TX   IPC_RX   NAME\n");
    push_str(&mut t, "---  -----    ------     ------   ------   ----\n");
    assert(t@ =~= status_head(*m, memory@));
    let mut i: usize = 0;
    assert(rows@.take(0) =~= Seq::<StatusRow>::empty());
    while i < rows.len()
        invariant
            i <= rows@.len(),
            t@ == status_table(*m, memory@, rows@.take(i as int)),
        decreases rows@.len() - i,
    {
        push_status_row(&mut t, &rows[i]);
        assert(rows@.take(i + 1).drop_last() =~= rows@.take(i as int));
        i = i + 1;
    }
    assert(rows@.take(rows@.len() as int) =~= rows@);
    t
}

/// An endpoint as the endpoint list shows it: its totals (messages, and
/// bytes as text) when the kernel has them.
#[derive(Clone, Debug)]
pub struct EndpointRow {
    pub id: u64,
    pub owner: u64,
    pub queue_depth: usize,
    pub totals: Option<(u64, String)>,
    pub owner_name: String,
}

/// A row of the endpoint list.
pub open spec fn endpoint_row_text(r: EndpointRow) -> Seq<char> {
    let head = crate::words::pad_right(decimal(r.id as nat), 4) + " "@ + crate::words::pad_right(
        decimal(r.owner as nat),
        6,
    ) + " "@ + crate::words::pad_left(decimal(r.queue_depth as nat), 5, ' ');
    match r.totals {
        Some((msgs, bytes)) => head + "  "@ + crate::words::pad_left(decimal(msgs as nat), 5, ' ') + "    "@
            + crate::words::pad_left(bytes@, 8, ' ') + "  "@ + r.owner_name@ + "\n"@,
        None => head + "  -        -         "@ + r.owner_name@ + "\n"@,
    }
}

/// The endpoint list: the counts, a header, then a row per endpoint.
pub open spec fn endpoint_table(total: nat, pending: usize, rows: Seq<EndpointRow>) -> Seq<char>
    decreases rows.len(),
{
    if rows.len() == 0 {
        "IPC Endpoints ("@ + decimal(total) + " total, "@ + decimal(pending as nat) + " pending messages)\n\n"@
            + "ID   OWNER  QUEUE  TOTAL    BYTES     OWNER_NAME\n"@
            + "--   -----  -----  -----    -----     ----------\n"@
    } else {
        endpoint_table(total, pending, rows.drop_last()) + endpoint_row_text(rows.last())
    }
}

fn push_endpoint_row(t: &mut String, r: &EndpointRow)
    ensures
        final(t)@ == old(t)@ + endpoint_row_text(*r),
{
    let mut row = String::new();
    push_decimal_right(&mut row, r.id, 4);
    assert(row@ =~= crate::words::pad_right(decimal(r.id as nat), 4));
    push_str(&mut row, " ");
    push_decimal_right(&mut row, r.owner, 6);
    push_str(&mut row, " ");
    push_decimal_left(&mut row, r.queue_depth as u64, 5);
    match &r.totals {
        Some((msgs, bytes)) => {
            push_str(&mut row, "  ");
            push_decimal_left(&mut row, *msgs, 5);
            push_str(&mut row, "    ");
            push_text_left(&mut row, bytes.as_str(), 8);
            push_str(&mut row, "  ");
        },
        None => {
            push_str(&mut row, "  -        -         ");
        },
    }
    push_str(&mut row, r.owner_name.as_str());
    push_str(&mut row, "\n");
    push_str(t, row.as_str());
}

/// Write the endpoint list (see `endpoint_table`).
pub fn endpoint_lines(pending: usize, rows: &[EndpointRow]) -> (t: String)
    ensures
        t@ == endpoint_table(rows@.len(), pending, rows@),
{
    let mut t = string_from("IPC Endpoints (");
    push_decimal(&mut t, rows.len() as u128);
    push_str(&mut t, " total, ");
    push_decimal(&mut t, pending as u128);
    push_str(&mut t, " pending messages)\n\n");
    push_str(&mut t, "ID   OWNER  QUEUE  TOTAL    BYTES     OWNER_NAME\n");
    push_str(&mut t, "--   -----  -----  -----    -----     ----------\n");
    let mut i: usize = 0;
    assert(rows@.take(0) =~= Seq::<EndpointRow>::empty());
    while i < rows.len()
        invariant
            i <= rows@.len(),
            t@ == endpoint_table(rows@.len(), pending, rows@.take(i as int)),
        decreases rows@.len() - i,
    {
        push_endpoint_row(&mut t, &rows[i]);
        assert(rows@.take(i + 1).drop_last() =~= rows@.take(i as int));
        i = i + 1;
    }
    assert(rows@.take(rows@.len() as int) =~= rows@);
    t
}

/// A process as the IPC statistics show it (byte counts as text).
#[derive(Clone, Debug)]
pub struct IpcStatRow {
    pub pid: u64,
    pub name: String,
    pub sent: u64,
    pub received: u64,
    pub bytes_sent: String,
    pub bytes_received: String,
}

/// Whether a name can be cut to sixteen bytes between characters.
pub open spec fn cuttable_name(name: Seq<char>) -> bool {
    vstd::utf8::encode_utf8(name).len() > 16 ==> vstd::utf8::is_char_boundary(
        vstd::utf8::encode_utf8(name),
        kept_bytes(16),
    )
}

/// A row of the IPC statistics.
pub open spec fn ipcstat_row_text(r: IpcStatRow) -> Seq<char> {
    crate::words::pad_right(decimal(r.pid as nat), 5) + " "@ + crate::words::pad_right(truncate_spec(r.name@, 16), 16)
        + " "@ + crate::words::pad_left(decimal(r.sent as nat), 8, ' ') + "   "@ + crate::words::pad_left(
        decimal(r.received as nat),
        8,
        ' ',
    ) + "   "@ + crate::words::pad_left(r.bytes_sent@, 8, ' ') + "    "@ + crate::words::pad_left(
        r.bytes_received@,
        8,
        ' ',
    ) + "\n"@
}

/// The IPC statistics: a header, then a row per process.
pub open spec fn ipcstat_table(rows: Seq<IpcStatRow>) -> Seq<char>
    decreases rows.len(),
{
    if rows.len() == 0 {
        "PID   NAME             SENT       RECV       BYTES_TX    BYTES_RX\n"@
            + "---   ----             ----       ----       --------    --------\n"@
    } else {
        ipcstat_table(rows.drop_last()) + ipcstat_row_text(rows.last())
    }
}

fn push_ipcstat_row(t: &mut String, r: &IpcStatRow)
    requires
        cuttable_name(r.name@),
    ensures
        final(t)@ == old(t)@ + ipcstat_row_text(*r),
{
    let mut row = String::new();
    push_decimal_right(&mut row, r.pid, 5);
    assert(row@ =~= crate::words::pad_right(decimal(r.pid as nat), 5));
    push_str(&mut row, " ");
    let name = truncate(r.name.as_str(), 16);
    push_text_right(&mut row, name.as_str(), 16);
    push_str(&mut row, " ");
    push_decimal_left(&mut row, r.sent, 8);
    push_str(&mut row, "   ");
    push_decimal_left(&mut row, r.received, 8);
    push_str(&mut row, "   ");
    push_text_left(&mut row, r.bytes_sent.as_str(), 8);
    push_str(&mut row, "    ");
    push_text_left(&mut row, r.bytes_received.as_str(), 8);
    push_str(&mut row, "\n");
    push_str(t, row.as_str());
}

/// Write the IPC statistics (see `ipcstat_table`); names are cut to
/// sixteen bytes, between characters.
pub fn ipcstat_lines(rows: &[IpcStatRow]) -> (t: String)
    requires
        forall|i: int| 0 <= i < rows@.len() ==> cuttable_name(#[trigger] rows@[i].name@),
    ensures
        t@ == ipcstat_table(rows@),
{
    let mut t = string_from("PID   NAME             SENT       RECV       BYTES_TX    BYTES_RX\n");
    push_str(&mut t, "---   ----             ----       ----       --------    --------\n");
    let mut i: usize = 0;
    assert(rows@.take(0) =~= Seq::<IpcStatRow>::empty());
    while i < rows.len()
        invariant
            i <= rows@.len(),
            t@ == ipcstat_table(rows@.take(i as int)),
            forall|i: int| 0 <= i < rows@.len() ==> cuttable_name(#[trigger] rows@[i].name@),
        decreases rows@.len() - i,
    {
        assert(cuttable_name(rows@[i as int].name@));
        push_ipcstat_row(&mut t, &rows[i]);
        assert(rows@.take(i + 1).drop_last() =~= rows@.take(i as int));
        i = i + 1;
    }
    assert(rows@.take(rows@.len() as int) =~= rows@);
    t
}


// ============================================================================
// Latency tests between two workers (`ping`, `pingtest`)
// ============================================================================

/// What the kernel knows of the two processes of a latency test: whether
/// each exists, and its worker id (0 for a process with no worker).
#[derive(Clone, Copy, Debug, PartialEq, Eq, Structural)]
pub struct LatencyPeers {
    pub pinger_found: bool,
    pub ponger_found: bool,
    pub pinger_worker: u64,
    pub ponger_worker: u64,
}

/// The decimal text of a signed number.
pub open spec fn signed_decimal(v: int) -> Seq<char> {
    if v < 0 {
        "-"@ + decimal((0 - v) as nat)
    } else {
        decimal(v as nat)
    }
}

/// Whether a latency test may go ahead (both processes exist and run on a
/// worker), and its refusal or its header. `poll` tells `pingtest` from
/// `ping`; `iterations` is the count as text.
pub open spec fn latency_check_text(
    poll: bool,
    pinger: u64,
    ponger: u64,
    iterations: Seq<char>,
    peers: LatencyPeers,
) -> (bool, Seq<char>) {
    let virtual_suffix = if poll {
        " is not a real worker (virtual process)\n"@
    } else {
        " is not a real worker\n"@
    };
    if !peers.pinger_found {
        (false, "Error: PID "@ + decimal(pinger as nat) + " not found\n"@)
    } else if !peers.ponger_found {
        (false, "Error: PID "@ + decimal(ponger as nat) + " not found\n"@)
    } else if peers.pinger_worker == 0 {
        (false, "Error: PID "@ + decimal(pinger as nat) + virtual_suffix)
    } else if peers.ponger_worker == 0 {
        (false, "Error: PID "@ + decimal(ponger as nat) + virtual_suffix)
    } else {
        (
            true,
            (if poll {
                "=== Ping-Pong Latency Test ===\n\n"@
            } else {
                "=== Real Worker-to-Worker Ping Test ===\n\n"@
            }) + "Pinger: PID "@ + decimal(pinger as nat) + " (worker:"@ + decimal(peers.pinger_worker as nat)
                + ")\n"@ + "Ponger: PID "@ + decimal(ponger as nat) + " (worker:"@ + decimal(
                peers.ponger_worker as nat,
            ) + ")\n"@ + "Iterations: "@ + iterations + "\n\n"@,
        )
    }
}

fn latency_check(poll: bool, pinger: u64, ponger: u64, iterations: &str, peers: LatencyPeers) -> (r: (bool, String))
    ensures
        (r.0, r.1@) == latency_check_text(poll, pinger, ponger, iterations@, peers),
{
    let mut t = string_from("Error: PID ");
    if !peers.pinger_found || (peers.ponger_found && peers.pinger_worker == 0) {
        push_decimal(&mut t, pinger as u128);
        if !peers.pinger_found {
            push_str(&mut t, " not found\n");
            return (false, t);
        }
    } else if !peers.ponger_found || peers.ponger_worker == 0 {
        push_decimal(&mut t, ponger as u128);
        if !peers.ponger_found {
            push_str(&mut t, " not found\n");
            return (false, t);
        }
    } else {
        let mut h = if poll {
            string_from("=== Ping-Pong Latency Test ===\n\n")
        } else {
            string_from("=== Real Worker-to-Worker Ping Test ===\n\n")
        };
        push_str(&mut h, "Pinger: PID ");
        push_decimal(&mut h, pinger as u128);
        push_str(&mut h, " (worker:");
        push_decimal(&mut h, peers.pinger_worker as u128);
        push_str(&mut h, ")\n");
        push_str(&mut h, "Ponger: PID ");
        push_decimal(&mut h, ponger as u128);
        push_str(&mut h, " (worker:");
        push_decimal(&mut h, peers.ponger_worker as u128);
        push_str(&mut h, ")\n");
        push_str(&mut h, "Iterations: ");
        push_str(&mut h, iterations);
        push_str(&mut h, "\n\n");
        return (true, h);
    }
    if poll {
        push_str(&mut t, " is not a real worker (virtual process)\n");
    } else {
        push_str(&mut t, " is not a real worker\n");
    }
    (false, t)
}

/// Check a `ping` of `iterations` round trips between two workers: whether
/// it may go ahead, and its refusal or its header.
pub fn ping_check(pinger: u64, ponger: u64, iterations: i32, peers: LatencyPeers) -> (r: (bool, String))
    ensures
        (r.0, r.1@) == latency_check_text(false, pinger, ponger, signed_decimal(iterations as int), peers),
{
    let mut n = String::new();
    if iterations < 0 {
        push_str(&mut n, "-");
        push_decimal(&mut n, (0 - (iterations as i64)) as u128);
    } else {
        push_decimal(&mut n, iterations as u128);
    }
    assert(n@ =~= signed_decimal(iterations as int));
    latency_check(false, pinger, ponger, n.as_str(), peers)
}

/// Check a `pingtest` of `iterations` measurements between two workers:
/// whether it may go ahead, and its refusal or its header.
pub fn pingtest_check(pinger: u64, ponger: u64, iterations: usize, peers: LatencyPeers) -> (r: (bool, String))
    ensures
        (r.0, r.1@) == latency_check_text(true, pinger, ponger, decimal(iterations as nat), peers),
{
    let mut n = String::new();
    push_decimal(&mut n, iterations as u128);
    latency_check(true, pinger, ponger, n.as_str(), peers)
}

/// Why a burst cannot be sent, when the sender or the receiver is missing.
pub open spec fn burst_refusal_text(sender: u64, receiver: u64, sender_found: bool, receiver_found: bool) -> Option<
    Seq<char>,
> {
    if !sender_found {
        Some("Error: Sender PID "@ + decimal(sender as nat) + " not found\n"@)
    } else if !receiver_found {
        Some("Error: Receiver PID "@ + decimal(receiver as nat) + " not found\n"@)
    } else {
        None
    }
}

/// Check a burst between two processes: the refusal when one is missing.
pub fn burst_refusal(sender: u64, receiver: u64, sender_found: bool, receiver_found: bool) -> (r: Option<String>)
    ensures
        match r {
            Some(t) => burst_refusal_text(sender, receiver, sender_found, receiver_found) == Some(t@),
            None => burst_refusal_text(sender, receiver, sender_found, receiver_found) is None,
        },
{
    if !sender_found {
        let mut t = string_from("Error: Sender PID ");
        push_decimal(&mut t, sender as u128);
        push_str(&mut t, " not found\n");
        Some(t)
    } else if !receiver_found {
        let mut t = string_from("Error: Receiver PID ");
        push_decimal(&mut t, receiver as u128);
        push_str(&mut t, " not found\n");
        Some(t)
    } else {
        None
    }
}

/// The first line of a burst's report.
pub open spec fn burst_done_text(delivered: u64, size: usize) -> Seq<char> {
    "Burst complete: "@ + decimal(delivered as nat) + " messages of "@ + decimal(size as nat) + " bytes each\n"@
}

/// Write the first line of a burst's report.
pub fn burst_done_line(delivered: u64, size: usize) -> (t: String)
    ensures
        t@ == burst_done_text(delivered, size),
{
    let mut t = string_from("Burst complete: ");
    push_decimal(&mut t, delivered as u128);
    push_str(&mut t, " messages of ");
    push_decimal(&mut t, size as u128);
    push_str(&mut t, " bytes each\n");
    t
}

/// What `workerinfo` shows of a process, or the error when there is no
/// such process. `worker_id` is 0 for a process with no worker;
/// `created` is the worker's creation time as the host writes it.
pub open spec fn workerinfo_text(pid: u64, worker_id: u64, created: Seq<char>, p: Option<ProcessDetail>) -> Seq<char> {
    match p {
        None => "Error: Process "@ + decimal(pid as nat) + " not found\n"@,
        Some(d) => "Process "@ + decimal(pid as nat) + " ("@ + d.name@ + ")\n"@ + "  State:     "@ + state_name(
            d.state,
        ) + "\n"@ + "  Memory:    "@ + decimal(d.memory_size as nat) + " bytes\n"@ + (if worker_id > 0 {
            "  Worker ID: worker:"@ + decimal(worker_id as nat) + "\n"@ + "  Context:   Created at Unix ms "@
                + created + "\n"@ + "  Type:      Real Web Worker (SharedArrayBuffer + Atomics)\n"@
        } else {
            "  Worker ID: (virtual)\n"@ + "  Type:      Virtual process (no real worker)\n"@
        }) + "  Syscalls:  "@ + decimal(d.syscall_count as nat) + "\n"@ + "  IPC Sent:  "@ + decimal(
            d.ipc_sent as nat,
        ) + " msgs, "@ + decimal(d.ipc_bytes_sent as nat) + " bytes\n"@ + "  IPC Recv:  "@ + decimal(
            d.ipc_received as nat,
        ) + " msgs, "@ + decimal(d.ipc_bytes_received as nat) + " bytes\n"@,
    }
}

/// Write what `workerinfo` shows of a process.
#[verifier::spinoff_prover]
#[verifier::rlimit(40)]
pub fn workerinfo_lines(pid: u64, worker_id: u64, created: &str, p: &Option<ProcessDetail>) -> (t: String)
    ensures
        t@ == workerinfo_text(pid, worker_id, created@, *p),
{
    match p {
        None => {
            let mut t = string_from("Error: Process ");
            push_decimal(&mut t, pid as u128);
            push_str(&mut t, " not found\n");
            t
        },
        Some(d) => {
            let mut t = string_from("Process ");
            push_decimal(&mut t, pid as u128);
            push_str(&mut t, " (");
            push_str(&mut t, d.name.as_str());
            push_str(&mut t, ")\n");
            push_str(&mut t, "  State:     ");
            push_str(&mut t, state_str(d.state));
            push_str(&mut t, "\n");
            push_str(&mut t, "  Memory:    ");
            push_decimal(&mut t, d.memory_size as u128);
            push_str(&mut t, " bytes\n");
            if worker_id > 0 {
                push_str(&mut t, "  Worker ID: worker:");
                push_decimal(&mut t, worker_id as u128);
                push_str(&mut t, "\n");
                push_str(&mut t, "  Context:   Created at Unix ms ");
                push_str(&mut t, created);
                push_str(&mut t, "\n");
                push_str(&mut t, "  Type:      Real Web Worker (SharedArrayBuffer + Atomics)\n");
            } else {
                push_str(&mut t, "  Worker ID: (virtual)\n");
                push_str(&mut t, "  Type:      Virtual process (no real worker)\n");
            }
            push_str(&mut t, "  Syscalls:  ");
            push_decimal(&mut t, d.syscall_count as u128);
            push_str(&mut t, "\n");
            push_str(&mut t, "  IPC Sent:  ");
            push_decimal(&mut t, d.ipc_sent as u128);
            push_str(&mut t, " msgs, ");
            push_decimal(&mut t, d.ipc_bytes_sent as u128);
            push_str(&mut t, " bytes\n");
            push_str(&mut t, "  IPC Recv:  ");
            push_decimal(&mut t, d.ipc_received as u128);
            push_str(&mut t, " msgs, ");
            push_decimal(&mut t, d.ipc_bytes_received as u128);
            push_str(&mut t, " bytes\n");
            assert(t@ =~= workerinfo_text(pid, worker_id, created@, *p));
            t
        },
    }
}

/// A grant the shell asks the kernel for carries exactly the permissions
/// its fourth argument names ("rw" when there is none): read when it holds
/// an 'r', write when it holds a 'w', grant when it holds a 'g'.
pub proof fn lemma_grant_request_permissions(alive: bool, line: Seq<char>)
    ensures
        shell_line_spec(alive, line) matches ShellStepView::Run {
            request: ShellRequestView::Grant { read, write, grant, .. },
            ..
        } ==> {
            let w = words(line);
            let perms = if w.len() > 4 {
                w[4]
            } else {
                "rw"@
            };
            &&& read <==> perms.contains('r')
            &&& write <==> perms.contains('w')
            &&& grant <==> perms.contains('g')
        },
{
    let w = words(line);
    if alive && w.len() > 0 && w[0] == "grant"@ {
        assert(w.drop_first().len() > 3 <==> w.len() > 4);
        if w.len() > 4 {
            assert(w.drop_first()[3] == w[4]);
        }
    }
}

} // verus!
