use zos_apps::error::AppError;
use zos_apps::identity::ZidFailure;
use zos_apps::identity_service::{
    start_create_machine_key, start_get_identity_key, start_get_machine_key,
    start_revoke_machine_key, start_rotate_machine_key,
    continue_create_machine_after_derivation, continue_rotate_after_derivation, KeyScheme, MachineKeyRecord,
    MachineKeyRequest, new_machine_key_record, rotate_machine_key_record,
    machine_id_from_entropy, start_machine_key_write, MachineKeyFailure, RotationFailure,
    continue_generate_after_derivation, continue_generate_after_exists_check,
    continue_recover_after_derivation, neural_key_records, start_key_store_write, DerivationFailure,
    DerivedIdentity, dispatch_decoded, dispatch_storage_result, handle_delete_machine_key,
    handle_write_key_store_content, identity_directories, start_generate_neural_key,
    start_list_machine_keys, start_recover_neural_key, CredentialFailure, EnrollKeys,
    IdentityAnswer, IdentityFlow, IdentityService, IdentityStep, KeyFailure, NetworkOutcome,
    PendingNetworkOp, PendingStorageOp, RecordKind, check_attach_email, start_zid_flow,
    ZidRequestFields,
};
use zos_apps::identity::{email_credential_body, email_credential_url, zid_machine_dir};
use zos_apps::service::{StorageCall, EXISTS_OK, LIST_OK, NOT_FOUND, READ_OK, STORAGE_ERROR, WRITE_OK};
use zos_apps::vfs_service::VfsCall;

fn frame(id: u32, result_type: u8, data: &[u8]) -> Vec<u8> {
    let mut f = Vec::new();
    f.extend_from_slice(&id.to_le_bytes());
    f.push(result_type);
    f.extend_from_slice(&(data.len() as u32).to_le_bytes());
    f.extend_from_slice(data);
    f
}

fn started_call(step: IdentityStep) -> (VfsCall, PendingStorageOp) {
    match step {
        IdentityStep::Start { call, op } => (call, op),
        other => panic!("expected a storage call, got {:?}", other),
    }
}

fn storage_key(call: &VfsCall) -> String {
    match call {
        VfsCall::Storage(StorageCall::Read { key }) => format!("read {}", key),
        VfsCall::Storage(StorageCall::Exists { key }) => format!("exists {}", key),
        VfsCall::Storage(StorageCall::Delete { key }) => format!("delete {}", key),
        VfsCall::Storage(StorageCall::List { prefix }) => format!("list {}", prefix),
        VfsCall::Storage(StorageCall::Write { key, .. }) => format!("write {}", key),
        VfsCall::WriteInode { key, .. } => format!("inode {}", key),
    }
}

#[test]
fn identity_directories_are_nested_under_home() {
    assert_eq!(
        identity_directories(42),
        vec![
            "/home/42".to_string(),
            "/home/42/.zos".to_string(),
            "/home/42/.zos/identity".to_string(),
            "/home/42/.zos/identity/machine".to_string(),
        ]
    );
}

#[test]
fn generate_request_checks_identity_directory() {
    let step = start_generate_neural_key(5, vec![9], Some((7, "/keys/7.json".to_string())));
    let (call, op) = started_call(step);
    assert_eq!(storage_key(&call), "exists inode:/home/7/.zos/identity");
    match op {
        PendingStorageOp::CheckIdentityDirectory { client_pid, user_id, key_path, cap_slots } => {
            assert_eq!((client_pid, user_id, key_path.as_str(), cap_slots), (5, 7, "/keys/7.json", vec![9]));
        }
        other => panic!("unexpected {:?}", other),
    }
    match start_generate_neural_key(5, vec![9], None) {
        IdentityStep::Reply(r) => {
            assert_eq!(r.to_pid, 5);
            assert!(matches!(r.answer, IdentityAnswer::GenerateNeuralKey(Err(KeyFailure::DerivationFailed))));
        }
        other => panic!("unexpected {:?}", other),
    }
}

#[test]
fn missing_identity_directory_is_created_then_key_checked() {
    let mut service = IdentityService::new();
    let step = start_generate_neural_key(5, vec![9], Some((7, "/keys/7.json".to_string())));
    let (call, op) = started_call(step);
    service.storage_started(&call, Ok(1), op).unwrap();
    let mut step = service.handle_storage_result(&frame(1, EXISTS_OK, &[0]), 1000);
    let mut created = Vec::new();
    let mut id = 2;
    loop {
        let (call, op) = started_call(step);
        match &call {
            VfsCall::WriteInode { inode, .. } => {
                assert!(inode.is_directory);
                assert_eq!(inode.owner, Some(7));
                assert_eq!(inode.now, 1000);
                created.push(inode.path.clone());
            }
            VfsCall::Storage(StorageCall::Exists { key }) => {
                assert_eq!(key, "inode:/keys/7.json");
                service.storage_started(&call, Ok(id), op).unwrap();
                break;
            }
            other => panic!("unexpected {:?}", other),
        }
        service.storage_started(&call, Ok(id), op).unwrap();
        step = service.handle_storage_result(&frame(id, WRITE_OK, &[]), 1000);
        id += 1;
    }
    assert_eq!(created, identity_directories(7));
    match service.handle_storage_result(&frame(id, EXISTS_OK, &[0]), 1000) {
        IdentityStep::Continue(IdentityFlow::DeriveNeuralKey { client_pid, user_id, key_path, .. }) => {
            assert_eq!((client_pid, user_id, key_path.as_str()), (5, 7, "/keys/7.json"));
        }
        other => panic!("unexpected {:?}", other),
    }
}

#[test]
fn failed_directory_creation_is_reported() {
    let op = PendingStorageOp::CreateIdentityDirectory {
        client_pid: 5,
        user_id: 7,
        key_path: "/k".to_string(),
        cap_slots: vec![],
        directories: vec![],
    };
    match dispatch_storage_result(op, STORAGE_ERROR, &[], 0) {
        IdentityStep::Reply(r) => match r.answer {
            IdentityAnswer::GenerateNeuralKey(Err(KeyFailure::StorageError(m))) => {
                assert_eq!(m, "Failed to create identity directory")
            }
            other => panic!("unexpected {:?}", other),
        },
        other => panic!("unexpected {:?}", other),
    }
}

#[test]
fn key_store_is_answered_after_content_and_inode() {
    let step = handle_write_key_store_content(
        5,
        7,
        "/home/7/.zos/identity/keys.json".to_string(),
        b"result".to_vec(),
        b"{\"k\":1}".to_vec(),
        vec![3],
        WRITE_OK,
        55,
    );
    let (call, op) = started_call(step);
    match &call {
        VfsCall::WriteInode { key, inode } => {
            assert_eq!(key, "inode:/home/7/.zos/identity/keys.json");
            assert_eq!(inode.parent, "/home/7/.zos/identity");
            assert_eq!(inode.name, "keys.json");
            assert_eq!(inode.size, 7);
            assert!(!inode.is_directory);
            assert_eq!(inode.owner, Some(7));
        }
        other => panic!("unexpected {:?}", other),
    }
    match dispatch_storage_result(op, WRITE_OK, &[], 56) {
        IdentityStep::Reply(r) => {
            assert_eq!((r.to_pid, r.cap_slots), (5, vec![3]));
            match r.answer {
                IdentityAnswer::GenerateNeuralKey(Ok(result)) => assert_eq!(result, b"result".to_vec()),
                other => panic!("unexpected {:?}", other),
            }
        }
        other => panic!("unexpected {:?}", other),
    }
}

#[test]
fn failed_content_write_is_reported() {
    let step = handle_write_key_store_content(5, 7, "/k".to_string(), vec![], vec![], vec![], STORAGE_ERROR, 0);
    match step {
        IdentityStep::Reply(r) => match r.answer {
            IdentityAnswer::GenerateNeuralKey(Err(KeyFailure::StorageError(m))) => assert_eq!(m, "Content write failed"),
            other => panic!("unexpected {:?}", other),
        },
        other => panic!("unexpected {:?}", other),
    }
}

#[test]
fn machine_keys_are_listed_and_read_one_by_one() {
    let step = start_list_machine_keys(5, vec![], Some(7));
    let (call, op) = started_call(step);
    assert_eq!(storage_key(&call), "list inode:/home/7/.zos/identity/machine");
    let listing = br#"["/m/a.json","/m/b.txt","/m/c.json"]"#;
    let (call, op) = started_call(dispatch_storage_result(op, LIST_OK, listing, 0));
    assert_eq!(storage_key(&call), "read content:/m/a.json");
    let (kind, op) = match dispatch_storage_result(op, READ_OK, b"rec-a", 0) {
        IdentityStep::Decode { kind, data, op } => {
            assert_eq!(data, b"rec-a".to_vec());
            (kind, op)
        }
        other => panic!("unexpected {:?}", other),
    };
    assert_eq!(kind, RecordKind::MachineKey);
    let (call, op) = started_call(dispatch_decoded(op, Ok(b"A".to_vec())));
    assert_eq!(storage_key(&call), "read content:/m/c.json");
    match dispatch_storage_result(op, NOT_FOUND, &[], 0) {
        IdentityStep::Reply(r) => match r.answer {
            IdentityAnswer::ListMachineKeys(records) => assert_eq!(records, vec![b"A".to_vec()]),
            other => panic!("unexpected {:?}", other),
        },
        other => panic!("unexpected {:?}", other),
    }
}

#[test]
fn empty_or_failed_listing_answers_no_keys() {
    for (result_type, data) in [(LIST_OK, &b"[\"/m/x.txt\"]"[..]), (LIST_OK, &b"nope"[..]), (STORAGE_ERROR, &b""[..])] {
        let op = PendingStorageOp::ListMachineKeys { client_pid: 1, user_id: 2, cap_slots: vec![] };
        match dispatch_storage_result(op, result_type, data, 0) {
            IdentityStep::Reply(r) => {
                assert!(matches!(r.answer, IdentityAnswer::ListMachineKeys(ref v) if v.is_empty()))
            }
            other => panic!("unexpected {:?}", other),
        }
    }
}

#[test]
fn identity_key_read_and_decode() {
    let op = PendingStorageOp::GetIdentityKey { client_pid: 4, cap_slots: vec![] };
    match dispatch_storage_result(op, NOT_FOUND, &[], 0) {
        IdentityStep::Reply(r) => assert!(matches!(r.answer, IdentityAnswer::GetIdentityKey(Ok(None)))),
        other => panic!("unexpected {:?}", other),
    }
    let op = PendingStorageOp::GetIdentityKey { client_pid: 4, cap_slots: vec![] };
    match dispatch_decoded(op, Err("eof".to_string())) {
        IdentityStep::Reply(r) => match r.answer {
            IdentityAnswer::GetIdentityKey(Err(KeyFailure::StorageError(m))) => assert_eq!(m, "Parse failed: eof"),
            other => panic!("unexpected {:?}", other),
        },
        other => panic!("unexpected {:?}", other),
    }
}

#[test]
fn recovery_needs_a_stored_identity() {
    let op = PendingStorageOp::ReadIdentityForRecovery {
        client_pid: 4,
        user_id: 1,
        key_path: "/k".to_string(),
        shards: vec![],
        cap_slots: vec![],
    };
    match dispatch_storage_result(op, READ_OK, &[], 0) {
        IdentityStep::Reply(r) => {
            assert!(matches!(r.answer, IdentityAnswer::RecoverNeuralKey(Err(KeyFailure::IdentityKeyRequired))))
        }
        other => panic!("unexpected {:?}", other),
    }
    let op = PendingStorageOp::ReadIdentityForRecovery {
        client_pid: 4,
        user_id: 1,
        key_path: "/k".to_string(),
        shards: vec![],
        cap_slots: vec![],
    };
    match dispatch_decoded(op, Err("bad".to_string())) {
        IdentityStep::Reply(r) => match r.answer {
            IdentityAnswer::RecoverNeuralKey(Err(KeyFailure::StorageError(m))) => {
                assert_eq!(m, "Corrupted identity key store")
            }
            other => panic!("unexpected {:?}", other),
        },
        other => panic!("unexpected {:?}", other),
    }
}

#[test]
fn recovery_request_checks_shards() {
    let two = vec!["aa".to_string(), "bb".to_string()];
    match start_recover_neural_key(3, vec![], Some((1, two, "/k".to_string())), Ok(())) {
        IdentityStep::Reply(r) => {
            assert!(matches!(r.answer, IdentityAnswer::RecoverNeuralKey(Err(KeyFailure::InsufficientShards))))
        }
        other => panic!("unexpected {:?}", other),
    }
    let three = vec!["aa".to_string(), "bb".to_string(), "cc".to_string()];
    match start_recover_neural_key(3, vec![], Some((1, three.clone(), "/k".to_string())), Err("bad".to_string())) {
        IdentityStep::Reply(r) => match r.answer {
            IdentityAnswer::RecoverNeuralKey(Err(KeyFailure::InvalidShard(m))) => assert_eq!(m, "Invalid shard format: bad"),
            other => panic!("unexpected {:?}", other),
        },
        other => panic!("unexpected {:?}", other),
    }
    let (call, _) = started_call(start_recover_neural_key(3, vec![], Some((1, three, "/k".to_string())), Ok(())));
    assert_eq!(storage_key(&call), "read content:/k");
}

#[test]
fn revoking_deletes_content_then_inode() {
    match handle_delete_machine_key(2, 1, 9, "/m/9.json".to_string(), vec![], WRITE_OK) {
        IdentityStep::Start { call, op } => {
            assert_eq!(storage_key(&call), "delete inode:/m/9.json");
            match dispatch_storage_result(op, WRITE_OK, &[], 0) {
                IdentityStep::Reply(r) => assert!(matches!(r.answer, IdentityAnswer::RevokeMachineKey(Ok(())))),
                other => panic!("unexpected {:?}", other),
            }
        }
        other => panic!("unexpected {:?}", other),
    }
    match handle_delete_machine_key(2, 1, 9, "/m/9.json".to_string(), vec![], NOT_FOUND) {
        IdentityStep::Reply(r) => match r.answer {
            IdentityAnswer::RevokeMachineKey(Err(KeyFailure::StorageError(m))) => assert_eq!(m, "Delete failed"),
            other => panic!("unexpected {:?}", other),
        },
        other => panic!("unexpected {:?}", other),
    }
}

#[test]
fn unlink_needs_stored_credentials() {
    let op = PendingStorageOp::ReadCredentialsForUnlink {
        client_pid: 2,
        user_id: 1,
        credential_type: "Email".to_string(),
        cap_slots: vec![],
    };
    match dispatch_storage_result(op, NOT_FOUND, &[], 0) {
        IdentityStep::Reply(r) => {
            assert!(matches!(r.answer, IdentityAnswer::UnlinkCredential(Err(CredentialFailure::NotFound))))
        }
        other => panic!("unexpected {:?}", other),
    }
}

#[test]
fn enroll_session_content_then_inode_key() {
    let op = PendingStorageOp::WriteZidEnrollSessionContent {
        client_pid: 2,
        user_id: 12,
        tokens: b"t".to_vec(),
        json_bytes: b"{}".to_vec(),
        cap_slots: vec![],
    };
    let (call, op) = started_call(dispatch_storage_result(op, WRITE_OK, &[], 0));
    match call {
        VfsCall::Storage(StorageCall::Write { key, value }) => {
            assert_eq!(key, "inode:/home/12/.zos/identity/zid_session.json");
            assert_eq!(value, b"{}".to_vec());
        }
        other => panic!("unexpected {:?}", other),
    }
    match dispatch_storage_result(op, STORAGE_ERROR, &[], 0) {
        IdentityStep::Reply(r) => match r.answer {
            IdentityAnswer::ZidEnroll(Err(ZidFailure::EnrollmentFailed(m))) => assert_eq!(m, "Session inode write failed"),
            other => panic!("unexpected {:?}", other),
        },
        other => panic!("unexpected {:?}", other),
    }
}

#[test]
fn unknown_and_short_storage_frames_are_ignored() {
    let mut service = IdentityService::new();
    assert!(matches!(service.handle_storage_result(&[1, 2, 3], 0), IdentityStep::Idle));
    assert!(matches!(service.handle_storage_result(&frame(77, READ_OK, b"x"), 0), IdentityStep::Idle));
}

#[test]
fn storage_start_failure_is_reported() {
    let mut service = IdentityService::new();
    let call = VfsCall::Storage(StorageCall::Exists { key: "inode:/x".to_string() });
    let op = PendingStorageOp::GetCredentials { client_pid: 1, cap_slots: vec![] };
    match service.storage_started(&call, Err(5), op) {
        Err(AppError::IpcError(m)) => assert_eq!(m, "Storage exists failed: 5"),
        other => panic!("unexpected {:?}", other),
    }
}

#[test]
fn network_results_are_handed_back_with_their_body() {
    let mut service = IdentityService::new();
    let op = PendingNetworkOp::SubmitEmailToZid { client_pid: 1, user_id: 2, email: "a@b".to_string(), cap_slots: vec![] };
    service.fetch_started(Ok(3), op).unwrap();
    match service.handle_net_result(&frame(3, 0, b"{\"ok\":true}")) {
        NetworkOutcome::Response { op: PendingNetworkOp::SubmitEmailToZid { email, .. }, body } => {
            assert_eq!(email, "a@b");
            assert_eq!(body, Some(b"{\"ok\":true}".to_vec()));
        }
        other => panic!("unexpected {:?}", other),
    }
    assert!(matches!(service.handle_net_result(&frame(3, 0, b"x")), NetworkOutcome::Idle));
    let keys = EnrollKeys {
        machine_id: 1,
        identity_signing_public_key: [0; 32],
        machine_signing_public_key: [0; 32],
        machine_encryption_public_key: [0; 32],
        machine_signing_sk: [0; 32],
        machine_encryption_sk: [0; 32],
    };
    let op = PendingNetworkOp::SubmitZidLoginAfterEnroll {
        client_pid: 1,
        user_id: 2,
        zid_endpoint: "https://zid".to_string(),
        cap_slots: vec![],
        keys,
    };
    service.fetch_started(Ok(4), op).unwrap();
    assert!(matches!(service.handle_net_result(&frame(4, 1, b"err")), NetworkOutcome::Response { body: None, .. }));
    match service.fetch_started(Err(8), PendingNetworkOp::SubmitZidLogin {
        client_pid: 1,
        user_id: 2,
        zid_endpoint: String::new(),
        cap_slots: vec![],
    }) {
        Err(AppError::IpcError(m)) => assert_eq!(m, "Network fetch failed: 8"),
        other => panic!("unexpected {:?}", other),
    }
}

#[test]
fn registration_carries_the_endpoint_slot() {
    let mut service = IdentityService::new();
    let msg = service.registration(Some(0x0102)).unwrap();
    let mut expected = vec![16u8];
    expected.extend_from_slice(b"identity_service");
    expected.extend_from_slice(&0x0102u64.to_le_bytes());
    assert_eq!(msg, expected);
    let msg = service.registration(None).unwrap();
    assert_eq!(&msg[17..], &1u64.to_le_bytes());
    service.registration_sent();
    assert_eq!(service.registration(None), None);
}

#[test]
fn answers_go_to_the_requesting_client() {
    let op = PendingStorageOp::WriteEmailCredentialInode { client_pid: 31, cap_slots: vec![4, 5] };
    match dispatch_storage_result(op, WRITE_OK, &[], 0) {
        IdentityStep::Reply(r) => {
            assert_eq!((r.to_pid, r.cap_slots), (31, vec![4, 5]));
            assert!(matches!(r.answer, IdentityAnswer::AttachEmail(Ok(()))));
        }
        other => panic!("unexpected {:?}", other),
    }
}

#[test]
fn existing_neural_key_is_not_regenerated() {
    match continue_generate_after_exists_check(5, 7, "/k".to_string(), true, vec![2]) {
        IdentityStep::Reply(r) => {
            assert_eq!((r.to_pid, r.cap_slots), (5, vec![2]));
            assert!(matches!(r.answer, IdentityAnswer::GenerateNeuralKey(Err(KeyFailure::IdentityKeyAlreadyExists))));
        }
        other => panic!("unexpected {:?}", other),
    }
}

#[test]
fn neural_key_records_number_shards_and_format_keys() {
    let mut key = [0u8; 32];
    key[0] = 0xab;
    key[31] = 0x01;
    let derived = DerivedIdentity { identity_signing_public_key: key, shards: vec!["s1".to_string(), "s2".to_string()] };
    let (record, store) = neural_key_records(9, &derived, 77);
    assert_eq!(record.identity_signing_pub_key, format!("0xab{}01", "00".repeat(30)));
    assert_eq!(record.machine_signing_pub_key, format!("0x{}", "00".repeat(32)));
    assert_eq!(record.machine_encryption_pub_key, format!("0x{}", "00".repeat(32)));
    let shards: Vec<(u8, String)> = record.shards.iter().map(|s| (s.index, s.hex.clone())).collect();
    assert_eq!(shards, vec![(1, "s1".to_string()), (2, "s2".to_string())]);
    assert_eq!(record.created_at, 77);
    assert_eq!((store.user_id, store.identity_signing_public_key, store.machine_signing_public_key), (9, key, [0; 32]));
}

#[test]
fn failed_derivations_are_reported() {
    match continue_generate_after_derivation(1, 2, "/k".to_string(), vec![], Err(DerivationFailure::Split("Bad".to_string())), 0) {
        IdentityStep::Reply(r) => match r.answer {
            IdentityAnswer::GenerateNeuralKey(Err(KeyFailure::CryptoError(m))) => assert_eq!(m, "Shamir split failed: Bad"),
            other => panic!("unexpected {:?}", other),
        },
        other => panic!("unexpected {:?}", other),
    }
    match continue_recover_after_derivation(1, 2, "/k".to_string(), vec![], Err(DerivationFailure::Derive("X".to_string())), 0) {
        IdentityStep::Reply(r) => match r.answer {
            IdentityAnswer::RecoverNeuralKey(Err(KeyFailure::CryptoError(m))) => {
                assert_eq!(m, "Identity key derivation failed during recovery: X")
            }
            other => panic!("unexpected {:?}", other),
        },
        other => panic!("unexpected {:?}", other),
    }
    match continue_recover_after_derivation(1, 2, "/k".to_string(), vec![], Err(DerivationFailure::Verification("mismatch".to_string())), 0) {
        IdentityStep::Reply(r) => {
            assert!(matches!(r.answer, IdentityAnswer::RecoverNeuralKey(Err(KeyFailure::Verification(ref m))) if m == "mismatch"))
        }
        other => panic!("unexpected {:?}", other),
    }
}

#[test]
fn derived_keys_are_stored_then_answered() {
    let derived = DerivedIdentity { identity_signing_public_key: [1; 32], shards: vec!["a".to_string()] };
    match continue_generate_after_derivation(1, 2, "/k.json".to_string(), vec![4], Ok(derived), 10) {
        IdentityStep::Continue(IdentityFlow::StoreNeuralKey { key_path, recovered, result, .. }) => {
            assert_eq!(key_path, "/k.json");
            assert!(!recovered);
            assert_eq!(result.shards.len(), 1);
        }
        other => panic!("unexpected {:?}", other),
    }
    let step = start_key_store_write(1, 2, "/k.json".to_string(), b"R".to_vec(), Ok(b"{}".to_vec()), vec![4], false);
    let (call, op) = started_call(step);
    match call {
        VfsCall::Storage(StorageCall::Write { key, value }) => {
            assert_eq!(key, "content:/k.json");
            assert_eq!(value, b"{}".to_vec());
        }
        other => panic!("unexpected {:?}", other),
    }
    assert!(matches!(op, PendingStorageOp::WriteKeyStoreContent { ref path, .. } if path == "/k.json"));
    match start_key_store_write(1, 2, "/k.json".to_string(), vec![], Err("boom".to_string()), vec![], true) {
        IdentityStep::Reply(r) => match r.answer {
            IdentityAnswer::RecoverNeuralKey(Err(KeyFailure::StorageError(m))) => assert_eq!(m, "Serialization failed: boom"),
            other => panic!("unexpected {:?}", other),
        },
        other => panic!("unexpected {:?}", other),
    }
}

#[test]
fn machine_id_is_little_endian_from_entropy() {
    let mut entropy = [0u8; 32];
    for (i, b) in entropy.iter_mut().enumerate() {
        *b = i as u8 + 1;
    }
    let mut first = [0u8; 16];
    first.copy_from_slice(&entropy[..16]);
    assert_eq!(machine_id_from_entropy(&entropy), u128::from_le_bytes(first));
    assert_eq!(machine_id_from_entropy(&[0xff; 32]), u128::MAX);
}

fn request() -> MachineKeyRequest {
    MachineKeyRequest { capabilities: b"caps".to_vec(), machine_name: Some("laptop".to_string()), key_scheme: KeyScheme::PqHybrid }
}

#[test]
fn machine_key_creation_outcomes() {
    match continue_create_machine_after_derivation(3, 4, request(), Ok((99, [1; 32], [2; 32])), 500, vec![]) {
        IdentityStep::Continue(IdentityFlow::StoreMachineKey { record, user_id, .. }) => {
            assert_eq!(user_id, 4);
            assert_eq!((record.machine_id, record.epoch, record.authorized_at, record.last_seen_at), (99, 1, 500, 500));
            assert_eq!(record.authorized_by, 4);
            assert_eq!(record.signing_public_key, [1; 32]);
            assert_eq!(record.encryption_public_key, [2; 32]);
            assert_eq!((record.signing_sk, record.encryption_sk), (None, None));
            assert_eq!((record.pq_signing_public_key, record.pq_encryption_public_key), (None, None));
            assert_eq!(record.capabilities, b"caps".to_vec());
            assert_eq!(record.machine_name.as_deref(), Some("laptop"));
            assert_eq!(record.key_scheme, KeyScheme::PqHybrid);
        }
        other => panic!("unexpected {:?}", other),
    }
    let refused = MachineKeyFailure::Verification(KeyFailure::IdentityKeyRequired);
    match continue_create_machine_after_derivation(3, 4, request(), Err(refused), 500, vec![]) {
        IdentityStep::Reply(r) => assert!(matches!(r.answer, IdentityAnswer::CreateMachineKey(Err(KeyFailure::IdentityKeyRequired)))),
        other => panic!("unexpected {:?}", other),
    }
    match continue_create_machine_after_derivation(3, 4, request(), Err(MachineKeyFailure::Entropy), 500, vec![]) {
        IdentityStep::Reply(r) => match r.answer {
            IdentityAnswer::CreateMachineKey(Err(KeyFailure::CryptoError(m))) => assert_eq!(m, "Failed to generate machine ID"),
            other => panic!("unexpected {:?}", other),
        },
        other => panic!("unexpected {:?}", other),
    }
    match continue_create_machine_after_derivation(3, 4, request(), Err(MachineKeyFailure::InvalidShard("x".to_string())), 0, vec![]) {
        IdentityStep::Reply(r) => {
            assert!(matches!(r.answer, IdentityAnswer::CreateMachineKey(Err(KeyFailure::InvalidShard(ref m))) if m == "Invalid shard format: x"))
        }
        other => panic!("unexpected {:?}", other),
    }
    let (call, op) = started_call(start_machine_key_write(3, 4, "/m/99.json".to_string(), Ok(b"rec".to_vec()), vec![], false));
    assert_eq!(storage_key(&call), "write content:/m/99.json");
    match op {
        PendingStorageOp::WriteMachineKeyContent { record, json_bytes, path, .. } => {
            assert_eq!((record, json_bytes, path.as_str()), (b"rec".to_vec(), b"rec".to_vec(), "/m/99.json"));
        }
        other => panic!("unexpected {:?}", other),
    }
}

fn stored(scheme: KeyScheme) -> MachineKeyRecord {
    MachineKeyRecord {
        machine_id: 77,
        signing_public_key: [9; 32],
        encryption_public_key: [8; 32],
        signing_sk: Some([7; 32]),
        encryption_sk: None,
        authorized_at: 10,
        authorized_by: 4,
        capabilities: b"caps".to_vec(),
        machine_name: Some("desk".to_string()),
        last_seen_at: 20,
        epoch: 1,
        key_scheme: scheme,
        pq_signing_public_key: Some(vec![1, 2]),
        pq_encryption_public_key: Some(vec![3]),
    }
}

#[test]
fn machine_key_rotation_outcomes() {
    match continue_rotate_after_derivation(3, 4, 99, Ok((stored(KeyScheme::Classical), [5; 32], [6; 32])), 700, vec![]) {
        IdentityStep::Continue(IdentityFlow::StoreRotatedKey { machine_id, record, .. }) => {
            assert_eq!(machine_id, 99);
            assert_eq!((record.machine_id, record.epoch, record.last_seen_at), (77, 2, 700));
            assert_eq!((record.signing_public_key, record.encryption_public_key), ([5; 32], [6; 32]));
            assert_eq!((record.signing_sk, record.encryption_sk), (Some([7; 32]), None));
            assert_eq!((record.authorized_at, record.authorized_by), (10, 4));
            assert_eq!(record.capabilities, b"caps".to_vec());
            assert_eq!(record.machine_name.as_deref(), Some("desk"));
            assert_eq!(record.key_scheme, KeyScheme::Classical);
            assert_eq!((record.pq_signing_public_key, record.pq_encryption_public_key), (Some(vec![1, 2]), Some(vec![3])));
        }
        other => panic!("unexpected {:?}", other),
    }
    let r = rotate_machine_key_record(stored(KeyScheme::PqHybrid), [5; 32], [6; 32], 800);
    assert_eq!((r.pq_signing_public_key, r.pq_encryption_public_key, r.epoch), (None, None, 2));
    let n = new_machine_key_record(4, 99, [1; 32], [2; 32], request(), 5);
    assert_eq!((n.epoch, n.authorized_by, n.signing_sk), (1, 4, None));
    match continue_rotate_after_derivation(3, 4, 99, Err(RotationFailure::Parse("eof".to_string())), 700, vec![]) {
        IdentityStep::Reply(r) => match r.answer {
            IdentityAnswer::RotateMachineKey(Err(KeyFailure::StorageError(m))) => assert_eq!(m, "Parse failed: eof"),
            other => panic!("unexpected {:?}", other),
        },
        other => panic!("unexpected {:?}", other),
    }
    let (_, op) = started_call(start_machine_key_write(3, 4, "/m.json".to_string(), Ok(vec![1]), vec![], true));
    assert!(matches!(op, PendingStorageOp::WriteRotatedMachineKeyContent { .. }));
}

#[test]
fn key_requests_start_with_the_right_storage_call() {
    let (call, op) = started_call(start_get_identity_key(2, vec![], Some("/k".to_string())));
    assert_eq!(storage_key(&call), "read content:/k");
    assert!(matches!(op, PendingStorageOp::GetIdentityKey { client_pid: 2, .. }));
    let (call, op) = started_call(start_create_machine_key(2, vec![], Some((b"req".to_vec(), "/k".to_string()))));
    assert_eq!(storage_key(&call), "read content:/k");
    assert!(matches!(op, PendingStorageOp::ReadIdentityForMachine { ref request, .. } if request == b"req"));
    let (call, op) = started_call(start_revoke_machine_key(2, vec![], Some((1, 9, "/m/9.json".to_string()))));
    assert_eq!(storage_key(&call), "delete content:/m/9.json");
    assert!(matches!(op, PendingStorageOp::DeleteMachineKey { machine_id: 9, .. }));
    let (call, op) = started_call(start_rotate_machine_key(2, vec![], Some((1, 9, "/m/9.json".to_string()))));
    assert_eq!(storage_key(&call), "read content:/m/9.json");
    assert!(matches!(op, PendingStorageOp::ReadMachineForRotate { machine_id: 9, .. }));
    let (call, _) = started_call(start_get_machine_key(2, vec![], Some("/m/9.json".to_string())));
    assert_eq!(storage_key(&call), "read content:/m/9.json");
    for step in [
        start_get_identity_key(2, vec![], None),
        start_create_machine_key(2, vec![], None),
        start_revoke_machine_key(2, vec![], None),
        start_rotate_machine_key(2, vec![], None),
        start_get_machine_key(2, vec![], None),
    ] {
        match step {
            IdentityStep::Reply(r) => {
                let refused = matches!(
                    r.answer,
                    IdentityAnswer::GetIdentityKey(Err(KeyFailure::DerivationFailed))
                        | IdentityAnswer::CreateMachineKey(Err(KeyFailure::DerivationFailed))
                        | IdentityAnswer::RevokeMachineKey(Err(KeyFailure::DerivationFailed))
                        | IdentityAnswer::RotateMachineKey(Err(KeyFailure::DerivationFailed))
                        | IdentityAnswer::GetMachineKey(Err(KeyFailure::DerivationFailed))
                );
                assert!(refused);
            }
            other => panic!("unexpected {:?}", other),
        }
    }
}

#[test]
fn a_storage_result_is_acted_on_once() {
    let mut service = IdentityService::new();
    let call = VfsCall::Storage(StorageCall::Read { key: "content:/c".to_string() });
    service.storage_started(&call, Ok(5), PendingStorageOp::GetCredentials { client_pid: 1, cap_slots: vec![] }).unwrap();
    match service.handle_storage_result(&frame(5, NOT_FOUND, &[]), 0) {
        IdentityStep::Reply(r) => assert!(matches!(r.answer, IdentityAnswer::GetCredentials(None))),
        other => panic!("unexpected {:?}", other),
    }
    assert!(matches!(service.handle_storage_result(&frame(5, NOT_FOUND, &[]), 0), IdentityStep::Idle));
}

#[test]
fn email_credentials_are_checked_before_submission() {
    assert!(check_attach_email("a@b.co", "correct horse battery").is_ok());
    assert!(matches!(check_attach_email("ab.com", "correct horse battery"), Err(CredentialFailure::InvalidFormat)));
    assert!(matches!(check_attach_email("a@b", "correct horse battery"), Err(CredentialFailure::InvalidFormat)));
    match check_attach_email("a@b.co", "short") {
        Err(CredentialFailure::StorageError(m)) => assert_eq!(m, "Password must be at least 12 characters"),
        other => panic!("expected a password error, got {:?}", other),
    }
    // Lengths count bytes: two three-byte characters and an '@'.
    assert!(check_attach_email("\u{20ac}@\u{20ac}", "\u{20ac}\u{20ac}\u{20ac}\u{20ac}").is_ok());
    assert_eq!(email_credential_url("https://zid.example"), "https://zid.example/v1/credentials/email");
    assert_eq!(email_credential_body("a@b.co", "pw"), "{\"email\":\"a@b.co\",\"password\":\"pw\"}");
}

#[test]
fn zid_flows_begin_by_listing_machine_keys() {
    assert_eq!(zid_machine_dir(0xab), format!("/home/{:032x}/.zos/identity/machine", 0xab));
    let fields = ZidRequestFields { user_id: 0xab, zid_endpoint: "https://zid".to_string() };
    let (call, op) = started_call(start_zid_flow(false, 7, vec![3], Ok(fields.clone())));
    assert_eq!(storage_key(&call), format!("list /home/{:032x}/.zos/identity/machine", 0xab));
    match op {
        PendingStorageOp::ReadMachineKeyForZidLogin { client_pid, user_id, zid_endpoint, cap_slots } => {
            assert_eq!((client_pid, user_id, zid_endpoint.as_str(), cap_slots), (7, 0xab, "https://zid", vec![3]));
        }
        other => panic!("unexpected {:?}", other),
    }
    let (_, op) = started_call(start_zid_flow(true, 7, vec![3], Ok(fields)));
    assert!(matches!(op, PendingStorageOp::ReadMachineKeyForZidEnroll { client_pid: 7, user_id: 0xab, .. }));
    match start_zid_flow(true, 7, vec![3], Err("missing field".to_string())) {
        IdentityStep::Reply(r) => {
            assert_eq!((r.to_pid, r.cap_slots), (7, vec![3]));
            match r.answer {
                IdentityAnswer::ZidEnroll(Err(ZidFailure::NetworkError(m))) => {
                    assert_eq!(m, "Invalid request: missing field")
                }
                other => panic!("unexpected {:?}", other),
            }
        }
        other => panic!("unexpected {:?}", other),
    }
}
