use zos_apps::kernel_shell::{
    burst_done_line, burst_refusal, ping_check, pingtest_check, workerinfo_lines, LatencyPeers,
};
use zos_apps::kernel_shell::{
    endpoint_lines, ipcstat_lines, status_lines, EndpointRow, IpcStatRow, StatusRow, SystemStatus,
};
use zos_apps::calculator::{classify_button, CalcButton, CalcDisplay};
use zos_apps::calendar::days_to_ymd;
use zos_apps::kernel_shell::{
    caps_lines, datetime_line, grant_line, kill_line, memory_line, send_line, shell_step,
    truncate, uptime_line, CapRow, KernelObject, MemoryOutcome, SendOutcome, ShellRequest,
    ShellStep,
};

fn say(text: &str) -> ShellStep {
    ShellStep::Write { text: text.to_string(), prompt: true }
}

fn run(request: ShellRequest) -> ShellStep {
    ShellStep::Run { preface: String::new(), request, prompt: true }
}

#[test]
fn civil_dates() {
    assert_eq!(days_to_ymd(0), (1970, 1, 1));
    assert_eq!(days_to_ymd(19723), (2024, 1, 1));
    assert_eq!(days_to_ymd(11016), (2000, 2, 29));
    assert_eq!(days_to_ymd(-1), (1969, 12, 31));
    assert_eq!(days_to_ymd(-719468), (0, 3, 1));
}

#[test]
fn datetime_and_uptime_lines() {
    assert_eq!(datetime_line(1_700_000_000_123), "2023-11-14 22:13:20.123 UTC\n");
    assert_eq!(datetime_line(0), "1970-01-01 00:00:00.000 UTC\n");
    assert_eq!(uptime_line(3_725_042_000_000), "Uptime: 1h 2m 5.042s\n");
    assert_eq!(uptime_line(65_000_000_000), "Uptime: 1m 5.000s\n");
    assert_eq!(uptime_line(7_001_000_000), "Uptime: 7.001s\n");
}

#[test]
fn shell_dead_terminal_and_empty_lines() {
    assert_eq!(
        shell_step(false, "ps"),
        ShellStep::Write {
            text: "[kernel] Terminal process not running. No shell available.\n".to_string(),
            prompt: false
        }
    );
    assert_eq!(shell_step(true, "   "), say(""));
}

#[test]
fn shell_simple_requests() {
    assert_eq!(shell_step(true, "ps"), run(ShellRequest::ListProcesses));
    assert_eq!(shell_step(true, "ep"), run(ShellRequest::Endpoints));
    assert_eq!(shell_step(true, "top"), run(ShellRequest::Status));
    assert_eq!(shell_step(true, "ipclog"), run(ShellRequest::IpcLog { count: 20 }));
    assert_eq!(shell_step(true, "ipclog 5"), run(ShellRequest::IpcLog { count: 5 }));
    assert_eq!(shell_step(true, "ipclog x"), run(ShellRequest::IpcLog { count: 20 }));
    assert_eq!(shell_step(true, "datetime"), run(ShellRequest::DateTime));
}

#[test]
fn shell_spawn() {
    assert_eq!(
        shell_step(true, "spawn MemHog"),
        ShellStep::Run {
            preface: "Spawning MemHog...\n".to_string(),
            request: ShellRequest::Spawn { process_type: "MemHog".to_string(), name: "MemHog".to_string() },
            prompt: true
        }
    );
    assert_eq!(
        shell_step(true, "spawn idle quiet"),
        ShellStep::Run {
            preface: "Spawning quiet...\n".to_string(),
            request: ShellRequest::Spawn { process_type: "idle".to_string(), name: "quiet".to_string() },
            prompt: true
        }
    );
    assert_eq!(
        shell_step(true, "spawn nope"),
        say("Unknown process type: nope\nValid types: memhog, sender, receiver, pingpong, idle, terminal, init\n")
    );
    assert_eq!(
        shell_step(true, "spawn"),
        say("Usage: spawn <type> [name]\nTypes: memhog, sender, receiver, pingpong, idle, terminal, init\nExample: spawn memhog myhog\n")
    );
}

#[test]
fn shell_kill_and_pids() {
    assert_eq!(shell_step(true, "kill 7"), run(ShellRequest::Kill { pid: 7 }));
    assert_eq!(shell_step(true, "kill 1"), say("Error: Cannot kill init (PID 1)\n"));
    assert_eq!(shell_step(true, "kill 2"), say("Error: Use 'exit' to kill terminal\n"));
    assert_eq!(shell_step(true, "kill x"), say("Error: Invalid PID\n"));
    assert_eq!(shell_step(true, "kill"), say("Usage: kill <pid>\n"));
    assert_eq!(shell_step(true, "wi 4"), run(ShellRequest::WorkerInfo { pid: 4 }));
    assert_eq!(shell_step(true, "inspect"), say("Usage: inspect <pid>\n"));
    assert_eq!(shell_step(true, "queue q"), say("Error: Invalid endpoint ID\n"));
}

#[test]
fn shell_arguments() {
    assert_eq!(shell_step(true, "alloc 3 65536"), run(ShellRequest::Alloc { pid: 3, bytes: 65536 }));
    assert_eq!(shell_step(true, "free 3 x"), say("Error: Invalid arguments\n"));
    assert_eq!(
        shell_step(true, "burst 3 4 100 64"),
        run(ShellRequest::Burst { sender: 3, receiver: 4, count: 100, size: 64 })
    );
    assert_eq!(
        shell_step(true, "grant 3 4 0"),
        run(ShellRequest::Grant { from_pid: 3, to_pid: 4, slot: 0, read: true, write: true, grant: false })
    );
    assert_eq!(
        shell_step(true, "grant 3 4 0 g"),
        run(ShellRequest::Grant { from_pid: 3, to_pid: 4, slot: 0, read: false, write: false, grant: true })
    );
    assert_eq!(
        shell_step(true, "ping 3 4"),
        run(ShellRequest::Ping { pinger: 3, ponger: 4, iterations: 100 })
    );
    assert_eq!(
        shell_step(true, "pingtest 3 4 7"),
        run(ShellRequest::PingTest { pinger: 3, ponger: 4, iterations: 7 })
    );
    assert_eq!(shell_step(true, "ping a b"), say("Error: Invalid PIDs\n"));
    assert_eq!(
        shell_step(true, "send 5 hello   there"),
        run(ShellRequest::Send { to_pid: 5, message: "hello there".to_string() })
    );
}

#[test]
fn shell_pingpong_and_exit_skip_the_prompt() {
    assert_eq!(
        shell_step(true, "pingpong"),
        ShellStep::Run { preface: String::new(), request: ShellRequest::PingPong { iterations: 100 }, prompt: false }
    );
    assert_eq!(
        shell_step(true, "pingpong 0"),
        say("Usage: pingpong [iterations]\n  iterations: 1-100000 (default: 100)\nExample: pingpong 1000\n")
    );
    assert_eq!(
        shell_step(true, "exit"),
        ShellStep::Run { preface: "Goodbye!\n".to_string(), request: ShellRequest::Exit, prompt: false }
    );
}

#[test]
fn shell_texts() {
    assert_eq!(shell_step(true, "echo  a  b "), say("a b\n"));
    assert_eq!(shell_step(true, "clear"), say("\x1B[2J\x1B[H"));
    assert_eq!(
        shell_step(true, "frobnicate now"),
        say("Unknown command: frobnicate\nType 'help' for available commands.\n")
    );
    match shell_step(true, "help") {
        ShellStep::Write { text, prompt } => {
            assert!(prompt);
            assert!(text.starts_with("=== Orbital Kernel Test Terminal ===\n\n"));
            assert!(text.ends_with("  exit                        - Exit terminal\n"));
        }
        other => panic!("unexpected {:?}", other),
    }
}

#[test]
fn outcome_lines() {
    assert_eq!(kill_line(9, true), "Killed process PID 9\n");
    assert_eq!(kill_line(9, false), "Error: Process 9 not found\n");
    assert_eq!(memory_line(3, 65536, false, MemoryOutcome::Done(131072)), "Allocated 65536 bytes to PID 3. Total: 128 KB\n");
    assert_eq!(memory_line(3, 10, true, MemoryOutcome::Failed), "Error: Free failed\n");
    assert_eq!(memory_line(3, 10, true, MemoryOutcome::ProcessNotFound), "Error: Process 3 not found\n");
    assert_eq!(send_line(4, "héllo", &SendOutcome::Sent), "Sent 6 bytes to PID 4\n");
    assert_eq!(send_line(4, "x", &SendOutcome::NoEndpoint), "Error: PID 4 has no endpoint\n");
    assert_eq!(
        grant_line(3, 4, 0, &Ok(2)),
        "Granted capability from PID 3 slot 0 to PID 4 (new slot 2)\n"
    );
    assert_eq!(grant_line(3, 4, 0, &Err("InvalidSlot".to_string())), "Error: InvalidSlot\n");
}

#[test]
fn capability_table() {
    let rows = [CapRow { slot: 0, object: KernelObject::IoPort, read: true, write: false, grant: true, object_id: 42 }];
    assert_eq!(
        caps_lines(&rows),
        "SLOT  TYPE      PERMS  OBJECT\n----  ----      -----  ------\n0     I/O Port  R-G    42\n"
    );
}

#[test]
fn truncation() {
    assert_eq!(truncate("short", 16), "short");
    assert_eq!(truncate("a-very-long-process-name", 16), "a-very-long-p...");
    assert_eq!(truncate("abcdef", 2), "ab");
    assert_eq!(truncate("\u{e9}", 1), "");
    assert_eq!(truncate("a\u{e9}", 2), "a");
    assert_eq!(truncate("\u{e9}x", 2), "\u{e9}");
    assert_eq!(truncate("abcdef", 0), "");
    assert_eq!(truncate("hello world", 8), "hello...");
    assert_eq!(truncate("abc", 3), "abc");
    assert_eq!(truncate("abcd", 3), "...");
}

#[test]
fn calculator_buttons() {
    assert_eq!(classify_button("digit_7"), CalcButton::Digit('7'));
    assert_eq!(classify_button("op_div"), CalcButton::Div);
    assert_eq!(classify_button("mystery"), CalcButton::Ignored);
}

#[test]
fn calculator_display_editing() {
    let mut d = CalcDisplay::new();
    d.handle_digit('1');
    d.handle_digit('2');
    d.press_decimal();
    d.handle_digit('5');
    d.press_decimal();
    assert_eq!(d.display, "12.5");
    d.negate();
    assert_eq!(d.display, "-12.5");
    d.negate();
    assert_eq!(d.display, "12.5");
    d.backspace();
    assert_eq!(d.display, "12.");
    for _ in 0..20 {
        d.handle_digit('9');
    }
    assert_eq!(d.display.len(), 15);
    d.clear_entry();
    assert_eq!(d.display, "0");
    d.negate();
    assert_eq!(d.display, "0");
    d.backspace();
    assert_eq!(d.display, "0");
    d.set_error();
    d.handle_digit('3');
    assert_eq!(d.display, "Error");
    d.clear();
    assert_eq!(d.display, "0");
    assert!(!d.has_error);
}

use zos_apps::kernel_shell::{
    inspect_lines, ipclog_lines, memstat_lines, ps_lines, queue_lines, EndpointDetail,
    ProcState, ProcessDetail, ProcessRow, QueuedMessage, TrafficEntry,
};

fn rows() -> Vec<ProcessRow> {
    vec![
        ProcessRow { pid: 1, state: ProcState::Running, memory_size: 65536, worker_id: 0x123456789ab, name: "init".to_string() },
        ProcessRow { pid: 12, state: ProcState::Blocked, memory_size: 2048, worker_id: 0, name: "term".to_string() },
    ]
}

#[test]
fn process_list_table() {
    assert_eq!(
        ps_lines(&rows()),
        "PID  STATE    MEMORY     WORKER      NAME\n---  -----    ------     ------      ----\n\
         1    Running      64 KB  W456789ab   init\n\
         12   Blocked       2 KB  virtual     term\n"
    );
}

#[test]
fn memory_table() {
    let t = memstat_lines(131072, &rows()[..1]);
    assert_eq!(
        t,
        "Total System Memory: 128 KB (131072 bytes)\n\nPID  MEMORY        PROCESS\n---  ------        -------\n1        64 KB  50%  init\n"
    );
    let t = memstat_lines(0, &rows()[1..]);
    assert!(t.ends_with("12        2 KB   0%  term\n"));
}

#[test]
fn inspect_details() {
    let d = ProcessDetail {
        name: "init".to_string(),
        state: ProcState::Zombie,
        memory_size: 4096,
        start_time_ns: 1_000_000_000,
        syscall_count: 3,
        ipc_sent: 4,
        ipc_bytes_sent: 40,
        ipc_received: 5,
        ipc_bytes_received: 50,
        caps: Some(2),
    };
    assert_eq!(
        inspect_lines(1, 4_500_000_000, &Some(d)),
        "Process 1\n  Name:      init\n  State:     Zombie\n  Memory:    4 KB (4096 bytes)\n  Age:       3s\n  Syscalls:  3\n  IPC Sent:  4 msgs, 40 bytes\n  IPC Recv:  5 msgs, 50 bytes\n  Caps:      2\n"
    );
    assert_eq!(inspect_lines(8, 0, &None), "Error: Process 8 not found\n");
}

#[test]
fn queue_listing() {
    let d = EndpointDetail {
        owner_pid: 3,
        owner_name: None,
        queue_depth: 1,
        total_messages: 10,
        total_bytes: 100,
        queued: vec![QueuedMessage { from_pid: 5, tag: 0x1f, size: 12 }],
    };
    assert_eq!(
        queue_lines(2, &Some(d)),
        "Endpoint 2 (owner: PID 3 - ???)\nQueue depth: 1, Total msgs: 10, Total bytes: 100\n\nFROM   TAG        SIZE\n----   ---        ----\n5      0x001F     12 bytes\n"
    );
    let empty = EndpointDetail {
        owner_pid: 3,
        owner_name: Some("svc".to_string()),
        queue_depth: 0,
        total_messages: 0,
        total_bytes: 0,
        queued: vec![],
    };
    assert!(queue_lines(2, &Some(empty)).ends_with("\n\n(queue empty)\n"));
    assert_eq!(queue_lines(9, &None), "Error: Endpoint 9 not found\n");
}

#[test]
fn ipc_log() {
    assert_eq!(ipclog_lines(&[]), "No IPC traffic recorded yet.\n");
    let e = TrafficEntry { timestamp_ns: 7_400_000, from_pid: 3, to_pid: 4, endpoint_id: 9, tag: 0xABCDE, size: 64 };
    assert_eq!(
        ipclog_lines(&[e]),
        "Recent IPC Traffic (last 1 messages):\n\nTIME_MS    FROM   TO     EP    TAG      SIZE\n-------    ----   --     --    ---      ----\n      7    3      4      9     0xABCDE   64 bytes\n"
    );
}

#[test]
fn negating_twice_restores_the_display() {
    let mut d = CalcDisplay::new();
    d.handle_digit('4');
    d.press_decimal();
    d.handle_digit('2');
    d.negate();
    assert_eq!(d.display, "-4.2");
    d.negate();
    assert_eq!(d.display, "4.2");
    let mut z = CalcDisplay::new();
    z.negate();
    assert_eq!(z.display, "0");
}

#[test]
fn status_endpoint_and_ipc_tables() {
    let status = SystemStatus {
        uptime_ns: 12_345_000_000,
        process_count: 2,
        endpoint_count: 3,
        pending_messages: 1,
        ipc_messages: 40,
    };
    let rows = vec![StatusRow {
        pid: 1,
        state: ProcState::Running,
        memory_size: 65536,
        ipc_sent: 5,
        ipc_received: 6,
        name: "init".to_string(),
    }];
    let text = status_lines(&status, "1.0MB", &rows);
    assert_eq!(
        text,
        "=== Orbital Kernel Status ===\n\nUptime:            12.345s\nProcesses:         2\n\
         Endpoints:         3\nTotal Memory:      1.0MB\nPending IPC:       1 messages\n\
         Total IPC:         40 messages\n\n--- Processes ---\n\
         PID  STATE    MEMORY     IPC_TX   IPC_RX   NAME\n\
         ---  -----    ------     ------   ------   ----\n\
         1    Run          64 KB       5        6   init\n"
    );
    let eps = vec![
        EndpointRow { id: 1, owner: 2, queue_depth: 0, totals: Some((7, "512B".to_string())), owner_name: "term".to_string() },
        EndpointRow { id: 2, owner: 9, queue_depth: 1, totals: None, owner_name: "???".to_string() },
    ];
    assert_eq!(
        endpoint_lines(4, &eps),
        "IPC Endpoints (2 total, 4 pending messages)\n\n\
         ID   OWNER  QUEUE  TOTAL    BYTES     OWNER_NAME\n\
         --   -----  -----  -----    -----     ----------\n\
         1    2          0      7        512B  term\n\
         2    9          1  -        -         ???\n"
    );
    let stats = vec![IpcStatRow {
        pid: 3,
        name: "a_very_long_process_name".to_string(),
        sent: 10,
        received: 20,
        bytes_sent: "1.5KB".to_string(),
        bytes_received: "0B".to_string(),
    }];
    assert_eq!(
        ipcstat_lines(&stats),
        "PID   NAME             SENT       RECV       BYTES_TX    BYTES_RX\n\
         ---   ----             ----       ----       --------    --------\n\
         3     a_very_long_p...       10         20      1.5KB          0B\n"
    );
}

#[test]
fn latency_test_arguments_keep_their_types() {
    assert_eq!(
        shell_step(true, "ping 3 4 -5"),
        run(ShellRequest::Ping { pinger: 3, ponger: 4, iterations: -5 })
    );
    assert_eq!(
        shell_step(true, "ping 3 4 3000000000"),
        run(ShellRequest::Ping { pinger: 3, ponger: 4, iterations: 100 })
    );
    assert_eq!(
        shell_step(true, "pingtest 3 4 -5"),
        run(ShellRequest::PingTest { pinger: 3, ponger: 4, iterations: 100 })
    );
    assert_eq!(
        shell_step(true, "pingtest 3 4 5000000000"),
        run(ShellRequest::PingTest { pinger: 3, ponger: 4, iterations: 5_000_000_000 })
    );
}

#[test]
fn latency_test_checks() {
    let ok = LatencyPeers { pinger_found: true, ponger_found: true, pinger_worker: 11, ponger_worker: 22 };
    assert_eq!(
        ping_check(3, 4, -7, ok),
        (
            true,
            "=== Real Worker-to-Worker Ping Test ===\n\nPinger: PID 3 (worker:11)\nPonger: PID 4 (worker:22)\nIterations: -7\n\n"
                .to_string()
        )
    );
    assert_eq!(
        pingtest_check(3, 4, 50, ok),
        (
            true,
            "=== Ping-Pong Latency Test ===\n\nPinger: PID 3 (worker:11)\nPonger: PID 4 (worker:22)\nIterations: 50\n\n"
                .to_string()
        )
    );
    let missing = LatencyPeers { pinger_found: false, ..ok };
    assert_eq!(ping_check(3, 4, 1, missing), (false, "Error: PID 3 not found\n".to_string()));
    let missing = LatencyPeers { ponger_found: false, pinger_worker: 0, ..ok };
    assert_eq!(pingtest_check(3, 4, 1, missing), (false, "Error: PID 4 not found\n".to_string()));
    let virtual_pinger = LatencyPeers { pinger_worker: 0, ..ok };
    assert_eq!(ping_check(3, 4, 1, virtual_pinger), (false, "Error: PID 3 is not a real worker\n".to_string()));
    let virtual_ponger = LatencyPeers { ponger_worker: 0, ..ok };
    assert_eq!(
        pingtest_check(3, 4, 1, virtual_ponger),
        (false, "Error: PID 4 is not a real worker (virtual process)\n".to_string())
    );
}

#[test]
fn burst_and_workerinfo_reports() {
    assert_eq!(burst_refusal(3, 4, false, false), Some("Error: Sender PID 3 not found\n".to_string()));
    assert_eq!(burst_refusal(3, 4, true, false), Some("Error: Receiver PID 4 not found\n".to_string()));
    assert_eq!(burst_refusal(3, 4, true, true), None);
    assert_eq!(burst_done_line(100, 64), "Burst complete: 100 messages of 64 bytes each\n");
    let d = ProcessDetail {
        name: "pp".to_string(),
        state: ProcState::Running,
        memory_size: 4096,
        start_time_ns: 0,
        syscall_count: 3,
        ipc_sent: 4,
        ipc_bytes_sent: 40,
        ipc_received: 5,
        ipc_bytes_received: 50,
        caps: None,
    };
    assert_eq!(
        workerinfo_lines(7, 1700000000123, "1700000000123", &Some(d.clone())),
        "Process 7 (pp)\n  State:     Running\n  Memory:    4096 bytes\n  Worker ID: worker:1700000000123\n  Context:   Created at Unix ms 1700000000123\n  Type:      Real Web Worker (SharedArrayBuffer + Atomics)\n  Syscalls:  3\n  IPC Sent:  4 msgs, 40 bytes\n  IPC Recv:  5 msgs, 50 bytes\n"
    );
    assert_eq!(
        workerinfo_lines(7, 0, "", &Some(d)),
        "Process 7 (pp)\n  State:     Running\n  Memory:    4096 bytes\n  Worker ID: (virtual)\n  Type:      Virtual process (no real worker)\n  Syscalls:  3\n  IPC Sent:  4 msgs, 40 bytes\n  IPC Recv:  5 msgs, 50 bytes\n"
    );
    assert_eq!(workerinfo_lines(9, 0, "", &None), "Error: Process 9 not found\n");
}

#[test]
fn calculator_decimal_point_after_a_result_and_in_error() {
    let mut d = CalcDisplay { display: "42".to_string(), pending_op: None, just_computed: true, has_error: false };
    d.press_decimal();
    assert_eq!(d.display, ".");
    assert!(!d.just_computed);
    let mut e = CalcDisplay { display: "Error".to_string(), pending_op: None, just_computed: true, has_error: true };
    e.press_decimal();
    assert_eq!(e.display, "Error");
    assert!(e.just_computed);
}
