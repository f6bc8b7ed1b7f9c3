use zos_apps::pingpong::{
    after_spawn, check_pingpong_complete, endpoint_count, latency_setup, on_process_spawned, progress_pingpong_test,
    start_pingpong_test, worker_ping, PingAction, PingPongTestState, CMD_EXIT, CMD_PING, CMD_PONG_MODE,
};

fn texts(actions: &[PingAction]) -> Vec<String> {
    actions
        .iter()
        .map(|a| match a {
            PingAction::Console(t) => format!("console {}", t),
            PingAction::Spawn { proc_type, name } => format!("spawn {} {}", proc_type, name),
            PingAction::Grant { from_pid, to_pid, .. } => format!("grant {}->{}", from_pid, to_pid),
            PingAction::Send { to_pid, tag, data, .. } => format!("send {} {:#x} {:?}", to_pid, tag, data),
            PingAction::KillWorker { pid } => format!("kill worker {}", pid),
            PingAction::KillProcess { pid } => format!("kill process {}", pid),
            PingAction::GrantReported { from_pid, to_pid, granted, failure } => {
                format!("grant {}->{} [{}|{}]", from_pid, to_pid, granted, failure)
            }
            PingAction::SendReported { to_pid, tag, data, sent, failure } => {
                format!("send {} {:#x} {:?} [{}|{}]", to_pid, tag, data, sent, failure)
            }
        })
        .collect()
}

#[test]
fn pingpong_test_runs_through_its_states() {
    let mut state = PingPongTestState::Idle;
    let a = start_pingpong_test(&mut state, 1000);
    assert_eq!(
        texts(&a),
        vec![
            "console === Ping-Pong Latency Test (1000 iterations) ===\n",
            "console   Spawning pinger process...\n",
            "spawn pingpong pp_pinger",
        ]
    );
    assert_eq!(state, PingPongTestState::WaitingForPinger { iterations: 1000 });

    let a = on_process_spawned(&mut state, "pp_pinger", 7, 0);
    assert_eq!(texts(&a), vec!["console   Pinger spawned as PID 7\n", "spawn pingpong pp_ponger"]);

    let a = on_process_spawned(&mut state, "pp_ponger", 8, 500);
    assert_eq!(
        texts(&a),
        vec![
            "console   Ponger spawned as PID 8\n".to_string(),
            "console   Setting up IPC capabilities...\n".to_string(),
            "grant 7->8".to_string(),
            "grant 8->7".to_string(),
            "console   Starting test with 1000 iterations...\n".to_string(),
            format!("send 8 {:#x} []", CMD_PONG_MODE),
            format!("send 7 {:#x} [232, 3, 0, 0]", CMD_PING),
            "console   Test running... (watch for results from processes)\n".to_string(),
        ]
    );
    assert_eq!(
        state,
        PingPongTestState::Running { iterations: 1000, pinger_pid: 7, ponger_pid: 8, start_time: 500 }
    );

    // The ponger's report does not end the test; the pinger's does.
    assert!(check_pingpong_complete(&mut state, 8, 600).is_empty());
    let a = check_pingpong_complete(&mut state, 7, 700);
    assert_eq!(
        texts(&a),
        vec![
            "console   Cleaning up test processes...\n".to_string(),
            format!("send 7 {:#x} []", CMD_EXIT),
            format!("send 8 {:#x} []", CMD_EXIT),
            "kill worker 7".to_string(),
            "kill worker 8".to_string(),
            "kill process 7".to_string(),
            "kill process 8".to_string(),
            "console   Killed processes 7 and 8\n".to_string(),
            "console Ping-pong test complete.\norbital> ".to_string(),
        ]
    );
    assert_eq!(state, PingPongTestState::Idle);
}

#[test]
fn second_pingpong_test_is_refused() {
    let mut state = PingPongTestState::WaitingForPinger { iterations: 5 };
    let a = start_pingpong_test(&mut state, 10);
    assert_eq!(texts(&a), vec!["console Error: A ping-pong test is already running.\n"]);
    assert_eq!(state, PingPongTestState::WaitingForPinger { iterations: 5 });
}

#[test]
fn running_test_times_out_after_thirty_seconds() {
    let running = PingPongTestState::Running { iterations: 1, pinger_pid: 3, ponger_pid: 4, start_time: 1_000 };
    let mut state = running;
    assert!(progress_pingpong_test(&mut state, 1_000 + 29_999_999_999).is_empty());
    assert_eq!(state, running);
    let a = progress_pingpong_test(&mut state, 1_000 + 30_000_000_000);
    assert_eq!(texts(&a)[0], "console \n  Test timed out after 30 seconds.\n");
    assert_eq!(texts(&a).len(), 10);
    assert_eq!(state, PingPongTestState::Idle);
}

#[test]
fn other_spawns_are_reported_and_init_brings_the_terminal() {
    let mut state = PingPongTestState::Idle;
    let a = on_process_spawned(&mut state, "init", 1, 0);
    assert_eq!(texts(&a), vec!["console Spawned Worker 'init' as PID 1\n", "spawn terminal terminal"]);
    let a = on_process_spawned(&mut state, "memhog", 9, 0);
    assert_eq!(texts(&a), vec!["console Spawned Worker 'memhog' as PID 9\n"]);
    let mut waiting = PingPongTestState::WaitingForPinger { iterations: 2 };
    let a = on_process_spawned(&mut waiting, "pp_ponger", 9, 0);
    assert_eq!(texts(&a), vec!["console Spawned Worker 'pp_ponger' as PID 9\n"]);
    assert_eq!(waiting, PingPongTestState::WaitingForPinger { iterations: 2 });
}

#[test]
fn spawned_processes_get_endpoints_and_init_access() {
    assert_eq!(endpoint_count("init"), 2);
    assert_eq!(endpoint_count("terminal"), 2);
    assert_eq!(endpoint_count("vfs_service"), 1);
    let f = after_spawn(false, "init");
    assert!(f.init_spawned && !f.grant_init_endpoint);
    let f = after_spawn(true, "terminal");
    assert!(f.init_spawned && f.grant_init_endpoint);
    let f = after_spawn(false, "terminal");
    assert!(!f.init_spawned && !f.grant_init_endpoint);
}

#[test]
fn worker_ping_connects_and_starts_the_pair() {
    let a = worker_ping(3, 4, 258);
    assert_eq!(
        texts(&a),
        vec![
            "console Setting up IPC capabilities...\n",
            "grant 4->3 [  Pinger can send to ponger (slot |  Error granting ponger->pinger cap: ]",
            "grant 3->4 [  Ponger can send to pinger (slot |  Error granting pinger->ponger cap: ]",
            "console \nSending commands to workers...\n",
            "send 4 0x3002 [] [  Sent PONG_MODE to ponger\n|  Error sending to ponger: ]",
            "send 3 0x3001 [2, 1, 0, 0] [  Sent PING command to pinger\n|  Error sending to pinger: ]",
            "console \nTest started! Results will appear in browser console (F12).\nLook for: [process N] ========== PING-PONG RESULTS ==========\n\nUse 'ipclog' to see message traffic between workers.\n",
        ]
    );
    // A negative count is sent as its two's complement bits.
    match &worker_ping(3, 4, -1)[5] {
        PingAction::SendReported { data, .. } => assert_eq!(data, &vec![0xff, 0xff, 0xff, 0xff]),
        _ => panic!("expected the ping command"),
    }
}

#[test]
fn latency_setup_grants_both_ways_then_announces() {
    let a = latency_setup(3, 4);
    assert_eq!(
        texts(&a),
        vec![
            "grant 3->4 [Granted pinger endpoint to ponger (slot |Warning: Failed to grant pinger->ponger: ]",
            "grant 4->3 [Granted ponger endpoint to pinger (slot |Warning: Failed to grant ponger->pinger: ]",
            "console \nCapabilities set up. Processes can now communicate.\nUse 'caps <pid>' to see each process's capabilities.\nUse 'ipclog' to watch message traffic.\n\n--- Supervisor-level syscall latency test ---\n",
        ]
    );
}
