use zos_apps::syscalls::{
    debug_action, encode_syscall_result, gateway_route, DebugAction, GatewayRoute, finish_kernel_call, plan_syscall, plan_worker_syscall, should_log_syscall,
    time_word, CapDetail, CapEntry, KernelCall, KernelFault, ProcessEntry, SyscallOutcome,
    SyscallPlan, WorkerCall, WorkerPlan,
};

#[test]
fn only_state_changing_syscalls_are_logged() {
    for num in [0x00, 0x02, 0x03, 0x04, 0x05, 0x12, 0x41] {
        assert!(!should_log_syscall(num), "{:#x}", num);
    }
    for num in [0x01, 0x11, 0x35, 0x40, 0x99] {
        assert!(should_log_syscall(num), "{:#x}", num);
    }
}

#[test]
fn debug_syscall_prints_and_spots_the_results_rule() {
    match plan_syscall(7, 0x01, [0; 3], b"hello") {
        SyscallPlan::Debug { line, ends_test } => {
            assert_eq!(line.as_deref(), Some("[P7] hello\n"));
            assert!(!ends_test);
        }
        other => panic!("unexpected {:?}", other),
    }
    let report = format!("done\n{}\n", "=".repeat(40));
    match plan_syscall(7, 0x01, [0; 3], report.as_bytes()) {
        SyscallPlan::Debug { ends_test, .. } => assert!(ends_test),
        other => panic!("unexpected {:?}", other),
    }
    match plan_syscall(7, 0x01, [0; 3], &[0xff, 0xfe]) {
        SyscallPlan::Debug { line, ends_test } => {
            assert!(line.is_none());
            assert!(!ends_test);
        }
        other => panic!("unexpected {:?}", other),
    }
}

#[test]
fn syscall_numbers_map_to_their_requests() {
    assert!(matches!(plan_syscall(1, 0x00, [0; 3], &[]), SyscallPlan::Return(0)));
    assert!(matches!(plan_syscall(1, 0x12, [0; 3], &[]), SyscallPlan::Return(0)));
    assert!(matches!(plan_syscall(9, 0x03, [0; 3], &[]), SyscallPlan::Return(9)));
    assert!(matches!(plan_syscall(1, 0x02, [1, 0, 0], &[]), SyscallPlan::Time { high: true }));
    assert!(matches!(plan_syscall(1, 0x11, [u32::MAX, 0, 0], &[]), SyscallPlan::Exit { code: -1 }));
    assert!(matches!(plan_syscall(1, 0x41, [3, 0, 0], &[]), SyscallPlan::Kernel(KernelCall::Receive { slot: 3 })));
    match plan_syscall(1, 0x40, [2, 0x99, 0], b"abc") {
        SyscallPlan::Kernel(KernelCall::Send { slot, tag, data }) => {
            assert_eq!((slot, tag, data), (2, 0x99, b"abc".to_vec()));
        }
        other => panic!("unexpected {:?}", other),
    }
    assert!(matches!(plan_syscall(1, 0x77, [0; 3], &[]), SyscallPlan::Return(-1)));
}

#[test]
fn time_words_split_the_uptime() {
    let nanos: u64 = 0x1234_5678_9abc_def0;
    assert_eq!(time_word(nanos, false), 0x9abc_def0u32 as i32);
    assert_eq!(time_word(nanos, true), 0x1234_5678);
}

#[test]
fn listings_go_to_the_mailbox() {
    let caps = SyscallOutcome::CapList(vec![CapEntry { slot: 1, object_type: 2, object_id: 3 }]);
    let r = finish_kernel_call(&KernelCall::ListCaps, &caps);
    assert_eq!(r.code, 0);
    assert_eq!(r.mailbox, Some(vec![1, 0, 0, 0, 1, 0, 0, 0, 2, 3, 0, 0, 0, 0, 0, 0, 0]));
    let procs = SyscallOutcome::ProcessList(vec![ProcessEntry { pid: 0x1_0000_0005, name: "ab".to_string() }]);
    let r = finish_kernel_call(&KernelCall::ListProcesses, &procs);
    assert_eq!(r.mailbox, Some(vec![1, 0, 0, 0, 5, 0, 0, 0, 2, 0, b'a', b'b']));
    let r = finish_kernel_call(&KernelCall::ListProcesses, &SyscallOutcome::WouldBlock);
    assert_eq!((r.code, r.mailbox), (-1, None));
}

#[test]
fn receive_results() {
    let msg = SyscallOutcome::Message { from: 4, tag: 0x10, data: vec![9] };
    let r = finish_kernel_call(&KernelCall::Receive { slot: 0 }, &msg);
    assert_eq!(r.code, 1);
    assert!(r.received);
    assert_eq!(r.mailbox, Some(vec![4, 0, 0, 0, 0x10, 0, 0, 0, 9]));
    let r = finish_kernel_call(&KernelCall::Receive { slot: 0 }, &SyscallOutcome::WouldBlock);
    assert_eq!((r.code, r.received), (0, false));
    let r = finish_kernel_call(&KernelCall::Receive { slot: 0 }, &SyscallOutcome::Failed(KernelFault::EndpointNotFound));
    assert_eq!(r.code, -1);
    let r = finish_kernel_call(&KernelCall::Send { slot: 0, tag: 0, data: vec![] }, &SyscallOutcome::Done(0x1_0000_0002));
    assert_eq!(r.code, 2);
}

#[test]
fn result_messages_are_encoded_by_kind() {
    assert_eq!(encode_syscall_result(&SyscallOutcome::Done(258)), vec![0, 2, 1, 0, 0, 0, 0, 0, 0]);
    assert_eq!(encode_syscall_result(&SyscallOutcome::Failed(KernelFault::Hal)), vec![1, 6]);
    assert_eq!(encode_syscall_result(&SyscallOutcome::WouldBlock), vec![5]);
    assert_eq!(
        encode_syscall_result(&SyscallOutcome::Message { from: 1, tag: 2, data: vec![7, 8] }),
        vec![2, 1, 0, 0, 0, 0, 0, 0, 0, 2, 0, 0, 0, 2, 0, 0, 0, 7, 8]
    );
    assert_eq!(
        encode_syscall_result(&SyscallOutcome::ProcessList(vec![ProcessEntry { pid: 3, name: "x".to_string() }])),
        vec![4, 1, 0, 0, 0, 3, 0, 0, 0, 0, 0, 0, 0, 1, 0, b'x']
    );
    assert_eq!(
        encode_syscall_result(&SyscallOutcome::MessageWithCaps { from: 1, tag: 2, data: vec![], slots: vec![5] }),
        vec![6, 1, 0, 0, 0, 0, 0, 0, 0, 2, 0, 0, 0, 0, 0, 0, 0, 1, 0, 0, 0, 5, 0, 0, 0]
    );
    let info = CapDetail {
        object_type: 1,
        read: true,
        write: false,
        grant: true,
        object_id: 2,
        id: 3,
        generation: 4,
        expires_at: 5,
    };
    let b = encode_syscall_result(&SyscallOutcome::CapInfo(info));
    assert_eq!(&b[..3], &[7, 1, 5]);
    assert_eq!(b.len(), 3 + 8 + 8 + 4 + 8);
}

#[test]
fn message_path_numbers_and_init_spawns() {
    match plan_worker_syscall(1, [0; 3], b"INIT:SPAWN:vfs_service") {
        WorkerPlan::SpawnService { name } => assert_eq!(name, "vfs_service"),
        other => panic!("unexpected {:?}", other),
    }
    assert!(matches!(plan_worker_syscall(1, [0; 3], b"INIT:ready"), WorkerPlan::Answer(SyscallOutcome::Done(0))));
    assert!(matches!(plan_worker_syscall(8, [0; 3], &[]), WorkerPlan::Kernel(WorkerCall::GetTime)));
    assert!(matches!(plan_worker_syscall(7, [3, 0, 0], &[]), WorkerPlan::Exit { code: 3 }));
    assert!(matches!(
        plan_worker_syscall(42, [0; 3], &[]),
        WorkerPlan::Answer(SyscallOutcome::Failed(KernelFault::PermissionDenied))
    ));
}

#[test]
fn debug_text_is_classified() {
    assert!(matches!(debug_action(1, b"INIT:SPAWN:vfs"), DebugAction::SpawnService { ref name } if name == "vfs"));
    assert!(matches!(debug_action(1, b"INIT:GRANT:3:4"), DebugAction::InitGrant(ref t) if t == "INIT:GRANT:3:4"));
    assert!(matches!(debug_action(1, b"INIT:REVOKE:3"), DebugAction::InitRevoke(_)));
    assert!(matches!(debug_action(1, b"INIT:PERM_LIST:x"), DebugAction::InitLog));
    assert!(matches!(debug_action(1, &[0xc3]), DebugAction::Ignore));
    match debug_action(12, b"hi") {
        DebugAction::Console { line, ends_test } => {
            assert_eq!(line, "[P12] hi\n");
            assert!(!ends_test);
        }
        other => panic!("unexpected {:?}", other),
    }
}

#[test]
fn gateway_routes() {
    assert!(matches!(gateway_route(false, 0x01, [1, 2, 3]), GatewayRoute::Unknown));
    assert!(matches!(gateway_route(true, 0x01, [1, 2, 3]), GatewayRoute::Debug));
    assert!(matches!(gateway_route(true, 0x11, [7, 2, 3]), GatewayRoute::Exit { code: 7 }));
    assert!(matches!(gateway_route(true, 0x40, [1, 2, 3]), GatewayRoute::Gateway { args: [1, 2, 3, 0] }));
}
