use zos_apps::allocator::{bump_alloc, BumpAllocator, HEAP_START};
use zos_apps::identity::{
    challenge_url, enroll_body, handle_check_key_exists, handle_read_machine_for_zid_enroll,
    handle_read_machine_for_zid_login, handle_read_machine_key, machine_key_reads,
    machine_key_to_read, machine_login_body, session_expiry, zid_session_path, MachineKeyProgress,
    ZidEnrollReadResult, ZidFailure, ZidLoginReadResult,
};
use zos_apps::service::{EXISTS_OK, LIST_OK, NOT_FOUND, READ_OK};

#[test]
fn bump_allocations_are_aligned_and_disjoint() {
    let mut a: BumpAllocator<1024> = BumpAllocator::new();
    let p1 = a.allocate(10, 1).unwrap();
    assert_eq!(p1, HEAP_START);
    let p2 = a.allocate(8, 8).unwrap();
    assert_eq!(p2, HEAP_START + 16);
    assert_eq!(p2 % 8, 0);
    assert!(p2 >= p1 + 10);
    let p3 = a.allocate(1, 64).unwrap();
    assert_eq!(p3, HEAP_START + 64);
}

#[test]
fn bump_allocator_runs_out() {
    let mut a: BumpAllocator<32> = BumpAllocator::new();
    assert_eq!(a.allocate(32, 1), Some(HEAP_START));
    assert_eq!(a.allocate(1, 1), None);
    let mut b: BumpAllocator<32> = BumpAllocator::new();
    assert_eq!(b.allocate(33, 1), None);
    assert_eq!(b.allocate(16, 16), Some(HEAP_START));
}

#[test]
fn bump_step() {
    assert_eq!(bump_alloc(3, 4, 4, 100), Some((HEAP_START + 4, 8)));
    assert_eq!(bump_alloc(98, 4, 4, 100), None);
}

#[test]
fn key_exists_flag() {
    assert_eq!(handle_check_key_exists(1, 2, vec![3], EXISTS_OK, &[1]), (true, 1, 2, vec![3]));
    assert_eq!(handle_check_key_exists(1, 2, vec![], EXISTS_OK, &[0]).0, false);
    assert_eq!(handle_check_key_exists(1, 2, vec![], READ_OK, &[1]).0, false);
    assert_eq!(handle_check_key_exists(1, 2, vec![], EXISTS_OK, &[]).0, false);
}

#[test]
fn zid_login_machine_lookup() {
    match handle_read_machine_for_zid_login(4, 5, "https://zid".to_string(), vec![1], LIST_OK, br#"["/m/a.json"]"#) {
        Ok(ZidLoginReadResult::PathList { paths, client_pid, user_id, zid_endpoint, cap_slots }) => {
            assert_eq!(paths, vec!["/m/a.json".to_string()]);
            assert_eq!((client_pid, user_id), (4, 5));
            assert_eq!(zid_endpoint, "https://zid");
            assert_eq!(cap_slots, vec![1]);
        }
        other => panic!("unexpected {:?}", other),
    }
    match handle_read_machine_for_zid_login(4, 5, String::new(), vec![], LIST_OK, b"not json") {
        Ok(ZidLoginReadResult::PathList { paths, .. }) => assert!(paths.is_empty()),
        other => panic!("unexpected {:?}", other),
    }
    match handle_read_machine_for_zid_login(4, 5, String::new(), vec![], READ_OK, b"{}") {
        Ok(ZidLoginReadResult::MachineKeyData { data, .. }) => assert_eq!(data, b"{}".to_vec()),
        other => panic!("unexpected {:?}", other),
    }
    assert!(matches!(
        handle_read_machine_for_zid_login(4, 5, String::new(), vec![], NOT_FOUND, b""),
        Err(ZidFailure::MachineKeyNotFound)
    ));
    assert!(matches!(
        handle_read_machine_for_zid_login(4, 5, String::new(), vec![], READ_OK, b""),
        Err(ZidFailure::NetworkError(ref m)) if m == "Storage read failed"
    ));
}

#[test]
fn zid_enroll_machine_lookup() {
    assert!(matches!(
        handle_read_machine_for_zid_enroll(1, 1, String::new(), vec![], READ_OK, b"x"),
        Ok(ZidEnrollReadResult::MachineKeyData { .. })
    ));
    assert!(matches!(
        handle_read_machine_for_zid_enroll(1, 1, String::new(), vec![], 9, b"x"),
        Err(ZidFailure::NetworkError(_))
    ));
}

#[test]
fn machine_key_listing() {
    let paths = vec!["/m/readme".to_string(), "/m/k1.json".to_string(), "/m/k2.json".to_string()];
    assert_eq!(machine_key_to_read(&paths), Some("content:/m/k1.json".to_string()));
    assert_eq!(machine_key_to_read(&vec!["/m/x".to_string()]), None);
    assert_eq!(
        machine_key_reads(LIST_OK, br#"["/m/readme","/m/k1.json","/m/k2.json"]"#),
        vec!["content:/m/k1.json".to_string(), "content:/m/k2.json".to_string()]
    );
    assert!(machine_key_reads(READ_OK, br#"["/m/k1.json"]"#).is_empty());
    assert!(machine_key_reads(LIST_OK, b"oops").is_empty());
}

#[test]
fn machine_key_reads_progress() {
    match handle_read_machine_key(vec!["b".to_string(), "c".to_string()], vec![1u32], READ_OK, Some(2)) {
        MachineKeyProgress::Next { key, remaining, records } => {
            assert_eq!(key, "b");
            assert_eq!(remaining, vec!["c".to_string()]);
            assert_eq!(records, vec![1, 2]);
        }
        other => panic!("unexpected {:?}", other),
    }
    match handle_read_machine_key(Vec::new(), vec![1u32], NOT_FOUND, Some(2)) {
        MachineKeyProgress::Done(records) => assert_eq!(records, vec![1]),
        other => panic!("unexpected {:?}", other),
    }
}

#[test]
fn zid_paths_and_bodies() {
    assert_eq!(
        zid_session_path(0xab),
        "/home/000000000000000000000000000000ab/.zos/identity/zid_session.json"
    );
    assert_eq!(
        challenge_url("https://zid.example", 1),
        "https://zid.example/v1/auth/challenge?machine_id=00000000-0000-0000-0000-000000000001"
    );
    let key = [0u8; 32];
    assert_eq!(
        enroll_body(2, &key),
        format!(
            r#"{{"machine_id":"00000000-0000-0000-0000-000000000002","public_key":"{}"}}"#,
            "00".repeat(32)
        )
    );
    assert_eq!(machine_login_body("a$", "id", 1, &key), None);
    let body = machine_login_body("aGVsbG8=", "cid", 1, &key).unwrap();
    let sig = zos_apps::crypto::sign_challenge(b"hello", &key);
    assert_eq!(
        body,
        format!(
            r#"{{"challenge_id":"cid","machine_id":"00000000-0000-0000-0000-000000000001","signature":"{}"}}"#,
            zos_apps::crypto::bytes_to_hex(&sig)
        )
    );
    assert_eq!(session_expiry(1000, 60), 61_000);
}

#[test]
fn bump_allocator_example_from_a_fresh_heap() {
    let mut a = BumpAllocator::<1024>::new();
    assert_eq!(a.allocate(1, 1), Some(0x10000));
    assert_eq!(a.allocate(8, 8), Some(0x10008));
    assert_eq!(a.allocate(1024, 1), None);
    assert_eq!(a.allocate(8, 1), Some(0x10010));
}
