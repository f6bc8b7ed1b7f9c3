//! The supervisor's spawning decisions and its automated ping-pong latency
//! test: a state machine that spawns a pinger and a ponger, connects their
//! endpoints, starts the exchange, and cleans up when the pinger reports or
//! the test times out. Each transition takes the state and an event and
//! gives the next state and the actions for the host to carry out, in
//! order.

use vstd::prelude::*;

use crate::text::{decimal, push_decimal, push_str, string_from};
use crate::wire::{le32_bytes, push_u32_le};

verus! {

/// Puts a worker into ping mode; the data is the iteration count (u32 LE).
pub const CMD_PING: u32 = 0x3001;

/// Puts a worker into pong mode.
pub const CMD_PONG_MODE: u32 = 0x3002;

/// Asks a worker to exit.
pub const CMD_EXIT: u32 = 0x1005;

/// How long a running test may take, in seconds.
pub const TEST_TIMEOUT_SECS: u64 = 30;

/// Where the test stands.
#[derive(Clone, Copy, Debug, PartialEq, Eq, Structural)]
pub enum PingPongTestState {
    /// No test running.
    Idle,
    WaitingForPinger { iterations: u32 },
    WaitingForPonger { iterations: u32, pinger_pid: u64 },
    /// Both spawned; their endpoints are to be connected.
    SettingUpCaps { iterations: u32, pinger_pid: u64, ponger_pid: u64 },
    /// Connected; the commands that start the exchange are to be sent.
    StartingTest { iterations: u32, pinger_pid: u64, ponger_pid: u64 },
    /// Running since `start_time` (kernel uptime, nanoseconds).
    Running { iterations: u32, pinger_pid: u64, ponger_pid: u64, start_time: u64 },
    /// Done; the workers are to be stopped.
    Cleanup { pinger_pid: u64, ponger_pid: u64 },
}

/// Something for the host to do.
#[derive(Clone, Debug)]
pub enum PingAction {
    /// Write to the console.
    Console(String),
    /// Ask the page to spawn a worker of `proc_type` named `name`.
    Spawn { proc_type: String, name: String },
    /// Grant `from_pid`'s own endpoint (slot 0) to `to_pid`, write only; on
    /// failure write `failure` and the error to the console.
    Grant { from_pid: u64, to_pid: u64, failure: String },
    /// Send `tag` and `data` to `to_pid` on behalf of the terminal (PID 2);
    /// on failure write `failure` and the error, when there is one.
    Send { to_pid: u64, tag: u32, data: Vec<u8>, failure: Option<String> },
    /// Stop the worker running process `pid`.
    KillWorker { pid: u64 },
    /// Remove process `pid` from the kernel.
    KillProcess { pid: u64 },
    /// Grant `from_pid`'s own endpoint (slot 0) to `to_pid`, write only; on
    /// success write `granted`, the new slot and ")\n"; on failure write
    /// `failure` and the error.
    GrantReported { from_pid: u64, to_pid: u64, granted: String, failure: String },
    /// Send `tag` and `data` to `to_pid` on behalf of the terminal (PID 2);
    /// on success write `sent`, on failure `failure` and the error.
    SendReported { to_pid: u64, tag: u32, data: Vec<u8>, sent: String, failure: String },
}

/// An action as plain values.
pub enum PingActionView {
    Console(Seq<char>),
    Spawn { proc_type: Seq<char>, name: Seq<char> },
    Grant { from_pid: u64, to_pid: u64, failure: Seq<char> },
    Send { to_pid: u64, tag: u32, data: Seq<u8>, failure: Option<Seq<char>> },
    KillWorker { pid: u64 },
    KillProcess { pid: u64 },
    GrantReported { from_pid: u64, to_pid: u64, granted: Seq<char>, failure: Seq<char> },
    SendReported { to_pid: u64, tag: u32, data: Seq<u8>, sent: Seq<char>, failure: Seq<char> },
}

impl View for PingAction {
    type V = PingActionView;

    open spec fn view(&self) -> PingActionView {
        match self {
            PingAction::Console(t) => PingActionView::Console(t@),
            PingAction::Spawn { proc_type, name } => PingActionView::Spawn { proc_type: proc_type@, name: name@ },
            PingAction::Grant { from_pid, to_pid, failure } => PingActionView::Grant {
                from_pid: *from_pid,
                to_pid: *to_pid,
                failure: failure@,
            },
            PingAction::Send { to_pid, tag, data, failure } => PingActionView::Send {
                to_pid: *to_pid,
                tag: *tag,
                data: data@,
                failure: match failure {
                    Some(f) => Some(f@),
                    None => None,
                },
            },
            PingAction::KillWorker { pid } => PingActionView::KillWorker { pid: *pid },
            PingAction::KillProcess { pid } => PingActionView::KillProcess { pid: *pid },
            PingAction::GrantReported { from_pid, to_pid, granted, failure } => PingActionView::GrantReported {
                from_pid: *from_pid,
                to_pid: *to_pid,
                granted: granted@,
                failure: failure@,
            },
            PingAction::SendReported { to_pid, tag, data, sent, failure } => PingActionView::SendReported {
                to_pid: *to_pid,
                tag: *tag,
                data: data@,
                sent: sent@,
                failure: failure@,
            },
        }
    }
}

/// The actions as plain values.
pub open spec fn actions_view(actions: Seq<PingAction>) -> Seq<PingActionView> {
    actions.map_values(|a: PingAction| a@)
}

// ============================================================================
// The transitions
// ============================================================================

/// Connecting the endpoints and starting the exchange: grant each worker's
/// endpoint to the other, put the ponger in pong mode, and give the pinger
/// the iteration count.
pub open spec fn start_actions(iterations: u32, pinger_pid: u64, ponger_pid: u64) -> Seq<PingActionView> {
    seq![
        PingActionView::Console("  Starting test with "@ + decimal(iterations as nat) + " iterations...\n"@),
        PingActionView::Send {
            to_pid: ponger_pid,
            tag: CMD_PONG_MODE,
            data: seq![],
            failure: Some("  Error sending PONG_MODE: "@),
        },
        PingActionView::Send {
            to_pid: pinger_pid,
            tag: CMD_PING,
            data: le32_bytes(iterations),
            failure: Some("  Error sending PING cmd: "@),
        },
        PingActionView::Console("  Test running... (watch for results from processes)\n"@),
    ]
}

/// Granting each worker's endpoint to the other.
pub open spec fn grant_actions(pinger_pid: u64, ponger_pid: u64) -> Seq<PingActionView> {
    seq![
        PingActionView::Console("  Setting up IPC capabilities...\n"@),
        PingActionView::Grant { from_pid: pinger_pid, to_pid: ponger_pid, failure: "  Error granting pinger->ponger cap: "@ },
        PingActionView::Grant { from_pid: ponger_pid, to_pid: pinger_pid, failure: "  Error granting ponger->pinger cap: "@ },
    ]
}

/// Stopping both workers: ask them to exit, stop their workers, remove
/// them from the kernel, and report.
pub open spec fn cleanup_actions(pinger_pid: u64, ponger_pid: u64) -> Seq<PingActionView> {
    seq![
        PingActionView::Console("  Cleaning up test processes...\n"@),
        PingActionView::Send { to_pid: pinger_pid, tag: CMD_EXIT, data: seq![], failure: None },
        PingActionView::Send { to_pid: ponger_pid, tag: CMD_EXIT, data: seq![], failure: None },
        PingActionView::KillWorker { pid: pinger_pid },
        PingActionView::KillWorker { pid: ponger_pid },
        PingActionView::KillProcess { pid: pinger_pid },
        PingActionView::KillProcess { pid: ponger_pid },
        PingActionView::Console(
            "  Killed processes "@ + decimal(pinger_pid as nat) + " and "@ + decimal(ponger_pid as nat) + "\n"@,
        ),
        PingActionView::Console("Ping-pong test complete.\norbital> "@),
    ]
}

/// Whether a test running since `start_time` has run out of time at `now`.
pub open spec fn timed_out(start_time: u64, now: u64) -> bool {
    (now - start_time) / 1_000_000_000 >= TEST_TIMEOUT_SECS as int
}

/// What moving the test on at `now` (kernel uptime, nanoseconds) does: the
/// next state and the actions, in order. Setting up runs straight on to
/// starting, and a timeout straight on to cleaning up.
pub open spec fn progress_spec(state: PingPongTestState, now: u64) -> (PingPongTestState, Seq<PingActionView>) {
    match state {
        PingPongTestState::SettingUpCaps { iterations, pinger_pid, ponger_pid } => (
            PingPongTestState::Running { iterations, pinger_pid, ponger_pid, start_time: now },
            grant_actions(pinger_pid, ponger_pid) + start_actions(iterations, pinger_pid, ponger_pid),
        ),
        PingPongTestState::StartingTest { iterations, pinger_pid, ponger_pid } => (
            PingPongTestState::Running { iterations, pinger_pid, ponger_pid, start_time: now },
            start_actions(iterations, pinger_pid, ponger_pid),
        ),
        PingPongTestState::Running { pinger_pid, ponger_pid, start_time, .. } => if timed_out(start_time, now) {
            (
                PingPongTestState::Idle,
                seq![PingActionView::Console("\n  Test timed out after 30 seconds.\n"@)] + cleanup_actions(
                    pinger_pid,
                    ponger_pid,
                ),
            )
        } else {
            (state, seq![])
        },
        PingPongTestState::Cleanup { pinger_pid, ponger_pid } => (
            PingPongTestState::Idle,
            cleanup_actions(pinger_pid, ponger_pid),
        ),
        _ => (state, seq![]),
    }
}

/// Whether a state's clock is no later than `now`.
pub open spec fn clock_ok(state: PingPongTestState, now: u64) -> bool {
    state matches PingPongTestState::Running { start_time, .. } ==> start_time <= now
}

fn console(t: &str) -> (a: PingAction)
    ensures
        a@ == PingActionView::Console(t@),
{
    PingAction::Console(string_from(t))
}

fn push_start_actions(actions: &mut Vec<PingAction>, iterations: u32, pinger_pid: u64, ponger_pid: u64)
    ensures
        actions_view(final(actions)@) == actions_view(old(actions)@) + start_actions(iterations, pinger_pid, ponger_pid),
{
    let ghost before = actions@;
    let mut t = string_from("  Starting test with ");
    push_decimal(&mut t, iterations as u128);
    push_str(&mut t, " iterations...\n");
    actions.push(PingAction::Console(t));
    actions.push(
        PingAction::Send {
            to_pid: ponger_pid,
            tag: CMD_PONG_MODE,
            data: Vec::new(),
            failure: Some(string_from("  Error sending PONG_MODE: ")),
        },
    );
    let mut data: Vec<u8> = Vec::new();
    push_u32_le(&mut data, iterations);
    actions.push(
        PingAction::Send {
            to_pid: pinger_pid,
            tag: CMD_PING,
            data,
            failure: Some(string_from("  Error sending PING cmd: ")),
        },
    );
    actions.push(console("  Test running... (watch for results from processes)\n"));
    assert(actions_view(actions@) =~= actions_view(before) + start_actions(iterations, pinger_pid, ponger_pid));
}

fn push_grant_actions(actions: &mut Vec<PingAction>, pinger_pid: u64, ponger_pid: u64)
    ensures
        actions_view(final(actions)@) == actions_view(old(actions)@) + grant_actions(pinger_pid, ponger_pid),
{
    let ghost before = actions@;
    actions.push(console("  Setting up IPC capabilities...\n"));
    actions.push(
        PingAction::Grant {
            from_pid: pinger_pid,
            to_pid: ponger_pid,
            failure: string_from("  Error granting pinger->ponger cap: "),
        },
    );
    actions.push(
        PingAction::Grant {
            from_pid: ponger_pid,
            to_pid: pinger_pid,
            failure: string_from("  Error granting ponger->pinger cap: "),
        },
    );
    assert(actions_view(actions@) =~= actions_view(before) + grant_actions(pinger_pid, ponger_pid));
}

fn push_cleanup_actions(actions: &mut Vec<PingAction>, pinger_pid: u64, ponger_pid: u64)
    ensures
        actions_view(final(actions)@) == actions_view(old(actions)@) + cleanup_actions(pinger_pid, ponger_pid),
{
    let ghost before = actions@;
    actions.push(console("  Cleaning up test processes...\n"));
    actions.push(PingAction::Send { to_pid: pinger_pid, tag: CMD_EXIT, data: Vec::new(), failure: None });
    actions.push(PingAction::Send { to_pid: ponger_pid, tag: CMD_EXIT, data: Vec::new(), failure: None });
    actions.push(PingAction::KillWorker { pid: pinger_pid });
    actions.push(PingAction::KillWorker { pid: ponger_pid });
    actions.push(PingAction::KillProcess { pid: pinger_pid });
    actions.push(PingAction::KillProcess { pid: ponger_pid });
    let mut t = string_from("  Killed processes ");
    push_decimal(&mut t, pinger_pid as u128);
    push_str(&mut t, " and ");
    push_decimal(&mut t, ponger_pid as u128);
    push_str(&mut t, "\n");
    actions.push(PingAction::Console(t));
    actions.push(console("Ping-pong test complete.\norbital> "));
    assert(actions_view(actions@) =~= actions_view(before) + cleanup_actions(pinger_pid, ponger_pid));
}

/// Move the test on at `now` (see `progress_spec`); the host calls this
/// after each round of system calls.
pub fn progress_pingpong_test(state: &mut PingPongTestState, now: u64) -> (actions: Vec<PingAction>)
    requires
        clock_ok(*old(state), now),
    ensures
        *final(state) == progress_spec(*old(state), now).0,
        actions_view(actions@) == progress_spec(*old(state), now).1,
{
    let mut actions: Vec<PingAction> = Vec::new();
    assert(actions_view(actions@) =~= Seq::<PingActionView>::empty());
    match *state {
        PingPongTestState::SettingUpCaps { iterations, pinger_pid, ponger_pid } => {
            push_grant_actions(&mut actions, pinger_pid, ponger_pid);
            push_start_actions(&mut actions, iterations, pinger_pid, ponger_pid);
            *state = PingPongTestState::Running { iterations, pinger_pid, ponger_pid, start_time: now };
        },
        PingPongTestState::StartingTest { iterations, pinger_pid, ponger_pid } => {
            push_start_actions(&mut actions, iterations, pinger_pid, ponger_pid);
            *state = PingPongTestState::Running { iterations, pinger_pid, ponger_pid, start_time: now };
        },
        PingPongTestState::Running { pinger_pid, ponger_pid, start_time, .. } => {
            let elapsed_secs = (now - start_time) / 1_000_000_000;
            if elapsed_secs >= TEST_TIMEOUT_SECS {
                actions.push(console("\n  Test timed out after 30 seconds.\n"));
                push_cleanup_actions(&mut actions, pinger_pid, ponger_pid);
                *state = PingPongTestState::Idle;
            }
        },
        PingPongTestState::Cleanup { pinger_pid, ponger_pid } => {
            push_cleanup_actions(&mut actions, pinger_pid, ponger_pid);
            *state = PingPongTestState::Idle;
        },
        _ => {},
    }
    actions
}

/// The header, when a test starts: the state and the actions.
pub open spec fn start_spec(state: PingPongTestState, iterations: u32) -> (PingPongTestState, Seq<PingActionView>) {
    if state != PingPongTestState::Idle {
        (state, seq![PingActionView::Console("Error: A ping-pong test is already running.\n"@)])
    } else {
        (
            PingPongTestState::WaitingForPinger { iterations },
            seq![
                PingActionView::Console(
                    "=== Ping-Pong Latency Test ("@ + decimal(iterations as nat) + " iterations) ===\n"@,
                ),
                PingActionView::Console("  Spawning pinger process...\n"@),
                PingActionView::Spawn { proc_type: "pingpong"@, name: "pp_pinger"@ },
            ],
        )
    }
}

/// Start a test of `iterations` round trips: refused while one runs;
/// otherwise the pinger is spawned first.
pub fn start_pingpong_test(state: &mut PingPongTestState, iterations: u32) -> (actions: Vec<PingAction>)
    ensures
        *final(state) == start_spec(*old(state), iterations).0,
        actions_view(actions@) == start_spec(*old(state), iterations).1,
{
    let mut actions: Vec<PingAction> = Vec::new();
    if *state != PingPongTestState::Idle {
        actions.push(console("Error: A ping-pong test is already running.\n"));
        assert(actions_view(actions@) =~= start_spec(*old(state), iterations).1);
        return actions;
    }
    let mut t = string_from("=== Ping-Pong Latency Test (");
    push_decimal(&mut t, iterations as u128);
    push_str(&mut t, " iterations) ===\n");
    actions.push(PingAction::Console(t));
    actions.push(console("  Spawning pinger process...\n"));
    actions.push(PingAction::Spawn { proc_type: string_from("pingpong"), name: string_from("pp_pinger") });
    *state = PingPongTestState::WaitingForPinger { iterations };
    assert(actions_view(actions@) =~= start_spec(*old(state), iterations).1);
    actions
}

/// What a successful spawn of `name` as `pid` does at `now`: the test's
/// pinger leads to spawning the ponger, the test's ponger to connecting
/// and starting; any other spawn is reported, and init's leads to spawning
/// the terminal.
pub open spec fn spawned_spec(state: PingPongTestState, name: Seq<char>, pid: u64, now: u64) -> (PingPongTestState, Seq<PingActionView>) {
    match state {
        PingPongTestState::WaitingForPinger { iterations } if name == "pp_pinger"@ => (
            PingPongTestState::WaitingForPonger { iterations, pinger_pid: pid },
            seq![
                PingActionView::Console("  Pinger spawned as PID "@ + decimal(pid as nat) + "\n"@),
                PingActionView::Spawn { proc_type: "pingpong"@, name: "pp_ponger"@ },
            ],
        ),
        PingPongTestState::WaitingForPonger { iterations, pinger_pid } if name == "pp_ponger"@ => {
            let next = progress_spec(PingPongTestState::SettingUpCaps { iterations, pinger_pid, ponger_pid: pid }, now);
            (next.0, seq![PingActionView::Console("  Ponger spawned as PID "@ + decimal(pid as nat) + "\n"@)] + next.1)
        },
        _ => (state, report_spawn_spec(name, pid)),
    }
}

fn text_eq(a: &str, b: &str) -> (r: bool)
    ensures
        r == (a@ == b@),
{
    crate::text::str_eq(a, b)
}

/// The report of a spawn that is not the test's.
pub open spec fn report_spawn_spec(name: Seq<char>, pid: u64) -> Seq<PingActionView> {
    seq![PingActionView::Console("Spawned Worker '"@ + name + "' as PID "@ + decimal(pid as nat) + "\n"@)]
        + if name == "init"@ {
        seq![PingActionView::Spawn { proc_type: "terminal"@, name: "terminal"@ }]
    } else {
        seq![]
    }
}

fn report_spawn(name: &str, pid: u64) -> (actions: Vec<PingAction>)
    ensures
        actions_view(actions@) == report_spawn_spec(name@, pid),
{
    let mut actions: Vec<PingAction> = Vec::new();
    let mut t = string_from("Spawned Worker '");
    push_str(&mut t, name);
    push_str(&mut t, "' as PID ");
    push_decimal(&mut t, pid as u128);
    push_str(&mut t, "\n");
    actions.push(PingAction::Console(t));
    if text_eq(name, "init") {
        actions.push(PingAction::Spawn { proc_type: string_from("terminal"), name: string_from("terminal") });
    }
    assert(actions_view(actions@) =~= report_spawn_spec(name@, pid));
    actions
}

/// A worker named `name` was spawned as process `pid` (see `spawned_spec`).
pub fn on_process_spawned(state: &mut PingPongTestState, name: &str, pid: u64, now: u64) -> (actions: Vec<PingAction>)
    ensures
        *final(state) == spawned_spec(*old(state), name@, pid, now).0,
        actions_view(actions@) == spawned_spec(*old(state), name@, pid, now).1,
{
    let is_pinger = text_eq(name, "pp_pinger");
    let is_ponger = text_eq(name, "pp_ponger");
    match *state {
        PingPongTestState::WaitingForPinger { iterations } => {
            if !is_pinger {
                return report_spawn(name, pid);
            }
            let mut actions: Vec<PingAction> = Vec::new();
            let mut t = string_from("  Pinger spawned as PID ");
            push_decimal(&mut t, pid as u128);
            push_str(&mut t, "\n");
            actions.push(PingAction::Console(t));
            actions.push(PingAction::Spawn { proc_type: string_from("pingpong"), name: string_from("pp_ponger") });
            *state = PingPongTestState::WaitingForPonger { iterations, pinger_pid: pid };
            assert(actions_view(actions@) =~= spawned_spec(*old(state), name@, pid, now).1);
            actions
        },
        PingPongTestState::WaitingForPonger { iterations, pinger_pid } => {
            if !is_ponger {
                return report_spawn(name, pid);
            }
            let mut actions: Vec<PingAction> = Vec::new();
            let mut t = string_from("  Ponger spawned as PID ");
            push_decimal(&mut t, pid as u128);
            push_str(&mut t, "\n");
            actions.push(PingAction::Console(t));
            *state = PingPongTestState::SettingUpCaps { iterations, pinger_pid, ponger_pid: pid };
            let more = progress_pingpong_test(state, now);
            let ghost first = actions@;
            let ghost rest = more@;
            let mut more = more;
            actions.append(&mut more);
            assert(actions_view(actions@) =~= actions_view(first) + actions_view(rest));
            assert(actions_view(actions@) =~= spawned_spec(*old(state), name@, pid, now).1);
            actions
        },
        _ => report_spawn(name, pid),
    }
}

/// What the pinger's report does: a running test whose pinger is `pid` is
/// cleaned up; anything else is left as it is.
pub open spec fn complete_spec(state: PingPongTestState, pid: u64, now: u64) -> (PingPongTestState, Seq<PingActionView>) {
    match state {
        PingPongTestState::Running { pinger_pid, ponger_pid, .. } if pid == pinger_pid => progress_spec(
            PingPongTestState::Cleanup { pinger_pid, ponger_pid },
            now,
        ),
        _ => (state, seq![]),
    }
}

/// Process `pid` printed its results (see `complete_spec`).
pub fn check_pingpong_complete(state: &mut PingPongTestState, pid: u64, now: u64) -> (actions: Vec<PingAction>)
    ensures
        *final(state) == complete_spec(*old(state), pid, now).0,
        actions_view(actions@) == complete_spec(*old(state), pid, now).1,
{
    match *state {
        PingPongTestState::Running { pinger_pid, ponger_pid, .. } => {
            if pid == pinger_pid {
                *state = PingPongTestState::Cleanup { pinger_pid, ponger_pid };
                return progress_pingpong_test(state, now);
            }
        },
        _ => {},
    }
    let actions: Vec<PingAction> = Vec::new();
    assert(actions_view(actions@) =~= Seq::<PingActionView>::empty());
    actions
}

// ============================================================================
// Spawning
// ============================================================================

/// How many endpoints a new process gets before its worker starts: init
/// two (its service registry and console output), the terminal two
/// (console output and input), any other process one.
pub open spec fn endpoint_count_spec(name: Seq<char>) -> u32 {
    if name == "init"@ || name == "terminal"@ {
        2
    } else {
        1
    }
}

/// The endpoints a new process gets (see `endpoint_count_spec`).
pub fn endpoint_count(name: &str) -> (n: u32)
    ensures
        n == endpoint_count_spec(name@),
{
    if text_eq(name, "init") || text_eq(name, "terminal") {
        2
    } else {
        1
    }
}

/// What follows a worker's start.
#[derive(Clone, Copy, Debug, PartialEq, Eq, Structural)]
pub struct SpawnFollowUp {
    /// Whether init runs now.
    pub init_spawned: bool,
    /// Whether the new process is granted init's endpoint (slot 0 of
    /// PID 1, write only), to register with init's service registry.
    pub grant_init_endpoint: bool,
}

/// After the worker of `name` started: init's start is recorded; any other
/// process started once init runs is granted init's endpoint.
pub fn after_spawn(init_spawned: bool, name: &str) -> (f: SpawnFollowUp)
    ensures
        f.init_spawned == (init_spawned || name@ == "init"@),
        f.grant_init_endpoint == (init_spawned && name@ != "init"@),
{
    if text_eq(name, "init") {
        SpawnFollowUp { init_spawned: true, grant_init_endpoint: false }
    } else {
        SpawnFollowUp { init_spawned, grant_init_endpoint: init_spawned }
    }
}

// ============================================================================
// Laws
// ============================================================================

/// A test's life: started from idle, it spawns the pinger, then the ponger;
/// once both run, their endpoints are connected, the ponger is put in pong
/// mode and the pinger given the iteration count, and the test runs from
/// that moment; when the pinger reports, both workers are stopped and the
/// test is idle again.
pub proof fn lemma_test_lifecycle(iterations: u32, pinger_pid: u64, ponger_pid: u64, t0: u64, t1: u64)
    requires
        t0 <= t1,
    ensures
        ({
            let s1 = start_spec(PingPongTestState::Idle, iterations);
            let s2 = spawned_spec(s1.0, "pp_pinger"@, pinger_pid, t0);
            let s3 = spawned_spec(s2.0, "pp_ponger"@, ponger_pid, t0);
            let s4 = complete_spec(s3.0, pinger_pid, t1);
            &&& s1.1.last() == PingActionView::Spawn { proc_type: "pingpong"@, name: "pp_pinger"@ }
            &&& s2.1.last() == PingActionView::Spawn { proc_type: "pingpong"@, name: "pp_ponger"@ }
            &&& s3.0 == PingPongTestState::Running { iterations, pinger_pid, ponger_pid, start_time: t0 }
            &&& s3.1 == seq![PingActionView::Console("  Ponger spawned as PID "@ + decimal(ponger_pid as nat) + "\n"@)]
                + grant_actions(pinger_pid, ponger_pid) + start_actions(iterations, pinger_pid, ponger_pid)
            &&& s4.0 == PingPongTestState::Idle
            &&& s4.1 == cleanup_actions(pinger_pid, ponger_pid)
        }),
{
    reveal_strlit("pp_pinger");
    reveal_strlit("pp_ponger");
}

/// A running test is stopped once 30 seconds have passed since it started,
/// and left running before that.
pub proof fn lemma_running_test_times_out(
    iterations: u32,
    pinger_pid: u64,
    ponger_pid: u64,
    start_time: u64,
    now: u64,
)
    requires
        start_time <= now,
    ensures
        ({
            let s = PingPongTestState::Running { iterations, pinger_pid, ponger_pid, start_time };
            let r = progress_spec(s, now);
            if now - start_time >= 30_000_000_000 {
                r.0 == PingPongTestState::Idle && r.1 == seq![
                    PingActionView::Console("\n  Test timed out after 30 seconds.\n"@),
                ] + cleanup_actions(pinger_pid, ponger_pid)
            } else {
                r.0 == s && r.1.len() == 0
            }
        }),
{
    assert((now - start_time) / 1_000_000_000 >= 30 <==> now - start_time >= 30_000_000_000) by (nonlinear_arith)
        requires
            now - start_time >= 0,
    ;
}

/// Only one test runs at a time: starting one while another is under way
/// changes nothing and only reports it.
pub proof fn lemma_one_test_at_a_time(state: PingPongTestState, iterations: u32)
    requires
        state != PingPongTestState::Idle,
    ensures
        start_spec(state, iterations).0 == state,
        start_spec(state, iterations).1 == seq![PingActionView::Console("Error: A ping-pong test is already running.\n"@)],
{
}


// ============================================================================
// The shell's latency tests between two running workers
// ============================================================================

/// What the shell's `ping` does once both workers are checked: grant each
/// worker's endpoint to the other, put the ponger in pong mode, and give the
/// pinger the iteration count, reporting each step.
pub open spec fn worker_ping_actions(pinger: u64, ponger: u64, iterations: i32) -> Seq<PingActionView> {
    seq![
        PingActionView::Console("Setting up IPC capabilities...\n"@),
        PingActionView::GrantReported {
            from_pid: ponger,
            to_pid: pinger,
            granted: "  Pinger can send to ponger (slot "@,
            failure: "  Error granting ponger->pinger cap: "@,
        },
        PingActionView::GrantReported {
            from_pid: pinger,
            to_pid: ponger,
            granted: "  Ponger can send to pinger (slot "@,
            failure: "  Error granting pinger->ponger cap: "@,
        },
        PingActionView::Console("\nSending commands to workers...\n"@),
        PingActionView::SendReported {
            to_pid: ponger,
            tag: CMD_PONG_MODE,
            data: seq![],
            sent: "  Sent PONG_MODE to ponger\n"@,
            failure: "  Error sending to ponger: "@,
        },
        PingActionView::SendReported {
            to_pid: pinger,
            tag: CMD_PING,
            data: le32_bytes(iterations as u32),
            sent: "  Sent PING command to pinger\n"@,
            failure: "  Error sending to pinger: "@,
        },
        PingActionView::Console(
            "\nTest started! Results will appear in browser console (F12).\n"@
                + "Look for: [process N] ========== PING-PONG RESULTS ==========\n"@
                + "\nUse 'ipclog' to see message traffic between workers.\n"@,
        ),
    ]
}

/// The steps of the shell's `ping` between two checked workers.
pub fn worker_ping(pinger: u64, ponger: u64, iterations: i32) -> (actions: Vec<PingAction>)
    ensures
        actions_view(actions@) == worker_ping_actions(pinger, ponger, iterations),
{
    let mut actions: Vec<PingAction> = Vec::new();
    actions.push(console("Setting up IPC capabilities...\n"));
    actions.push(PingAction::GrantReported {
        from_pid: ponger,
        to_pid: pinger,
        granted: string_from("  Pinger can send to ponger (slot "),
        failure: string_from("  Error granting ponger->pinger cap: "),
    });
    actions.push(PingAction::GrantReported {
        from_pid: pinger,
        to_pid: ponger,
        granted: string_from("  Ponger can send to pinger (slot "),
        failure: string_from("  Error granting pinger->ponger cap: "),
    });
    actions.push(console("\nSending commands to workers...\n"));
    actions.push(PingAction::SendReported {
        to_pid: ponger,
        tag: CMD_PONG_MODE,
        data: Vec::new(),
        sent: string_from("  Sent PONG_MODE to ponger\n"),
        failure: string_from("  Error sending to ponger: "),
    });
    let mut data: Vec<u8> = Vec::new();
    push_u32_le(&mut data, iterations as u32);
    actions.push(PingAction::SendReported {
        to_pid: pinger,
        tag: CMD_PING,
        data,
        sent: string_from("  Sent PING command to pinger\n"),
        failure: string_from("  Error sending to pinger: "),
    });
    let mut t = string_from("\nTest started! Results will appear in browser console (F12).\n");
    push_str(&mut t, "Look for: [process N] ========== PING-PONG RESULTS ==========\n");
    push_str(&mut t, "\nUse 'ipclog' to see message traffic between workers.\n");
    actions.push(PingAction::Console(t));
    assert(actions_view(actions@) =~= worker_ping_actions(pinger, ponger, iterations));
    actions
}

/// What the shell's `pingtest` does once both workers are checked, before
/// it measures: grant each worker's endpoint to the other, reporting each
/// grant, then announce the measurement.
pub open spec fn latency_setup_actions(pinger: u64, ponger: u64) -> Seq<PingActionView> {
    seq![
        PingActionView::GrantReported {
            from_pid: pinger,
            to_pid: ponger,
            granted: "Granted pinger endpoint to ponger (slot "@,
            failure: "Warning: Failed to grant pinger->ponger: "@,
        },
        PingActionView::GrantReported {
            from_pid: ponger,
            to_pid: pinger,
            granted: "Granted ponger endpoint to pinger (slot "@,
            failure: "Warning: Failed to grant ponger->pinger: "@,
        },
        PingActionView::Console(
            "\nCapabilities set up. Processes can now communicate.\n"@
                + "Use 'caps <pid>' to see each process's capabilities.\n"@
                + "Use 'ipclog' to watch message traffic.\n"@
                + "\n--- Supervisor-level syscall latency test ---\n"@,
        ),
    ]
}

/// The steps of the shell's `pingtest` between two checked workers, before
/// the measurement.
pub fn latency_setup(pinger: u64, ponger: u64) -> (actions: Vec<PingAction>)
    ensures
        actions_view(actions@) == latency_setup_actions(pinger, ponger),
{
    let mut actions: Vec<PingAction> = Vec::new();
    actions.push(PingAction::GrantReported {
        from_pid: pinger,
        to_pid: ponger,
        granted: string_from("Granted pinger endpoint to ponger (slot "),
        failure: string_from("Warning: Failed to grant pinger->ponger: "),
    });
    actions.push(PingAction::GrantReported {
        from_pid: ponger,
        to_pid: pinger,
        granted: string_from("Granted ponger endpoint to pinger (slot "),
        failure: string_from("Warning: Failed to grant ponger->pinger: "),
    });
    let mut t = string_from("\nCapabilities set up. Processes can now communicate.\n");
    push_str(&mut t, "Use 'caps <pid>' to see each process's capabilities.\n");
    push_str(&mut t, "Use 'ipclog' to watch message traffic.\n");
    push_str(&mut t, "\n--- Supervisor-level syscall latency test ---\n");
    actions.push(PingAction::Console(t));
    assert(actions_view(actions@) =~= latency_setup_actions(pinger, ponger));
    actions
}

} // verus!
