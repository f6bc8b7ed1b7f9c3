use zos_apps::app::Message;
use zos_apps::service::{StorageCall, EXISTS_OK, LIST_OK, NOT_FOUND, READ_OK, WRITE_OK};
use zos_apps::vfs_service::{
    parent_path, path_name, InodeKind, InodeOp, VfsCall, VfsError, VfsPendingOp, VfsResponse,
    VfsService, VfsStep, MSG_VFS_EXISTS_RESPONSE, MSG_VFS_MKDIR_RESPONSE, MSG_VFS_READDIR_RESPONSE,
    MSG_VFS_READ_RESPONSE, MSG_VFS_STAT_RESPONSE, MSG_VFS_UNLINK_RESPONSE, MSG_VFS_WRITE_RESPONSE,
};

fn frame(request_id: u32, result_type: u8, data: &[u8]) -> Message {
    let mut v = request_id.to_le_bytes().to_vec();
    v.push(result_type);
    v.extend_from_slice(&(data.len() as u32).to_le_bytes());
    v.extend_from_slice(data);
    Message::new(0, 0, vec![], v)
}

fn start(svc: &mut VfsService, step: VfsStep, first_id: u32) -> Vec<VfsCall> {
    match step {
        VfsStep::Start(calls) => {
            let mut out = Vec::new();
            for (i, c) in calls.into_iter().enumerate() {
                svc.storage_started(&c.call, Ok(first_id + i as u32), c.op).unwrap();
                out.push(c.call);
            }
            out
        }
        other => panic!("unexpected {:?}", other),
    }
}

fn no_inode() -> Result<InodeKind, String> {
    Err("no inode".to_string())
}

#[test]
fn paths() {
    assert_eq!(parent_path("/a/b/c.txt"), "/a/b");
    assert_eq!(parent_path("/a"), "/");
    assert_eq!(parent_path("/"), "/");
    assert_eq!(parent_path("rel"), "/");
    assert_eq!(path_name("/a/b/c.txt"), "c.txt");
    assert_eq!(path_name("plain"), "plain");
    assert_eq!(path_name("/dir/"), "");
}

#[test]
fn undecodable_requests_are_answered_at_once() {
    let svc = VfsService::new();
    match svc.handle_stat(4, Err("bad json".to_string())) {
        VfsStep::Respond(r) => {
            assert_eq!(r.to_pid, 4);
            assert_eq!(r.tag, MSG_VFS_STAT_RESPONSE);
            assert!(matches!(r.response, VfsResponse::Stat(Err(VfsError::InvalidPath(ref m))) if m == "bad json"));
        }
        other => panic!("unexpected {:?}", other),
    }
    match svc.handle_exists(4, Err("x".to_string())) {
        VfsStep::Respond(r) => {
            assert_eq!(r.tag, MSG_VFS_EXISTS_RESPONSE);
            assert!(matches!(r.response, VfsResponse::Exists(false)));
        }
        other => panic!("unexpected {:?}", other),
    }
}

#[test]
fn stat_reads_the_inode() {
    let mut svc = VfsService::new();
    let step = svc.handle_stat(7, Ok("/home/a".to_string()));
    let calls = start(&mut svc, step, 1);
    assert!(matches!(&calls[0], VfsCall::Storage(StorageCall::Read { key }) if key == "inode:/home/a"));
    match svc.handle_storage_result(&frame(1, READ_OK, b"{\"kind\":1}"), &Ok(InodeKind::Directory), 0) {
        VfsStep::Respond(r) => {
            assert_eq!(r.to_pid, 7);
            assert!(matches!(r.response, VfsResponse::Stat(Ok(ref d)) if d == b"{\"kind\":1}"));
        }
        other => panic!("unexpected {:?}", other),
    }
    // The same result again is not acted on a second time.
    assert!(matches!(
        svc.handle_storage_result(&frame(1, READ_OK, b"{\"kind\":1}"), &Ok(InodeKind::Directory), 0),
        VfsStep::Idle
    ));
    let step = svc.handle_stat(7, Ok("/missing".to_string()));
    start(&mut svc, step, 2);
    match svc.handle_storage_result(&frame(2, NOT_FOUND, b""), &no_inode(), 0) {
        VfsStep::Respond(r) => assert!(matches!(r.response, VfsResponse::Stat(Err(VfsError::NotFound)))),
        other => panic!("unexpected {:?}", other),
    }
}

#[test]
fn read_checks_the_inode_then_reads_content() {
    let mut svc = VfsService::new();
    let step = svc.handle_read(3, Ok("/f.txt".to_string()));
    start(&mut svc, step, 10);
    let step = svc.handle_storage_result(&frame(10, READ_OK, b"inode"), &Ok(InodeKind::File), 0);
    let calls = start(&mut svc, step, 11);
    assert!(matches!(&calls[0], VfsCall::Storage(StorageCall::Read { key }) if key == "content:/f.txt"));
    match svc.handle_storage_result(&frame(11, READ_OK, b"hello"), &no_inode(), 0) {
        VfsStep::Respond(r) => {
            assert_eq!(r.tag, MSG_VFS_READ_RESPONSE);
            assert!(matches!(r.response, VfsResponse::Read(Ok(ref d)) if d == b"hello"));
        }
        other => panic!("unexpected {:?}", other),
    }
    // A directory is not a file.
    let step = svc.handle_read(3, Ok("/d".to_string()));
    start(&mut svc, step, 12);
    match svc.handle_storage_result(&frame(12, READ_OK, b"inode"), &Ok(InodeKind::Directory), 0) {
        VfsStep::Respond(r) => assert!(matches!(r.response, VfsResponse::Read(Err(VfsError::NotAFile)))),
        other => panic!("unexpected {:?}", other),
    }
}

#[test]
fn write_checks_the_parent_then_writes_inode_and_content() {
    let mut svc = VfsService::new();
    let step = svc.handle_write(5, Ok(("/docs/a.txt".to_string(), b"abc".to_vec())));
    let calls = start(&mut svc, step, 20);
    assert!(matches!(&calls[0], VfsCall::Storage(StorageCall::Read { key }) if key == "inode:/docs"));
    let step = svc.handle_storage_result(&frame(20, READ_OK, b"dir"), &Ok(InodeKind::Directory), 1234);
    let calls = start(&mut svc, step, 21);
    assert_eq!(calls.len(), 2);
    match &calls[0] {
        VfsCall::WriteInode { key, inode } => {
            assert_eq!(key, "inode:/docs/a.txt");
            assert_eq!(inode.path, "/docs/a.txt");
            assert_eq!(inode.parent, "/docs");
            assert_eq!(inode.name, "a.txt");
            assert!(!inode.is_directory);
            assert_eq!(inode.size, 3);
            assert_eq!(inode.now, 1234);
        }
        other => panic!("unexpected {:?}", other),
    }
    assert!(matches!(&calls[1], VfsCall::Storage(StorageCall::Write { key, value }) if key == "content:/docs/a.txt" && value == b"abc"));
    // The inode write answers nobody; the content write answers the client.
    assert!(matches!(svc.handle_storage_result(&frame(21, WRITE_OK, b""), &no_inode(), 0), VfsStep::Idle));
    match svc.handle_storage_result(&frame(22, WRITE_OK, b""), &no_inode(), 0) {
        VfsStep::Respond(r) => {
            assert_eq!(r.to_pid, 5);
            assert_eq!(r.tag, MSG_VFS_WRITE_RESPONSE);
            assert!(matches!(r.response, VfsResponse::Write(Ok(()))));
        }
        other => panic!("unexpected {:?}", other),
    }
}

#[test]
fn mkdir_refuses_existing_paths() {
    let mut svc = VfsService::new();
    let step = svc.handle_mkdir(2, Ok(("/x".to_string(), false)));
    let calls = start(&mut svc, step, 30);
    assert!(matches!(&calls[0], VfsCall::Storage(StorageCall::Exists { key }) if key == "inode:/x"));
    match svc.handle_storage_result(&frame(30, EXISTS_OK, &[1]), &no_inode(), 0) {
        VfsStep::Respond(r) => {
            assert_eq!(r.tag, MSG_VFS_MKDIR_RESPONSE);
            assert!(matches!(r.response, VfsResponse::Mkdir(Err(VfsError::AlreadyExists))));
        }
        other => panic!("unexpected {:?}", other),
    }
    let step = svc.handle_mkdir(2, Ok(("/y".to_string(), false)));
    start(&mut svc, step, 31);
    let step = svc.handle_storage_result(&frame(31, EXISTS_OK, &[0]), &no_inode(), 77);
    let calls = start(&mut svc, step, 32);
    assert!(matches!(&calls[0], VfsCall::WriteInode { key, inode } if key == "inode:/y" && inode.is_directory && inode.now == 77));
    match svc.handle_storage_result(&frame(32, 3, b""), &no_inode(), 0) {
        VfsStep::Respond(r) => assert!(matches!(r.response, VfsResponse::Mkdir(Err(VfsError::StorageError(ref m))) if m == "Write failed")),
        other => panic!("unexpected {:?}", other),
    }
}

#[test]
fn unlink_deletes_content_then_inode() {
    let mut svc = VfsService::new();
    let step = svc.handle_unlink(8, Ok("/f".to_string()));
    start(&mut svc, step, 40);
    let step = svc.handle_storage_result(&frame(40, READ_OK, b"i"), &Ok(InodeKind::File), 0);
    let calls = start(&mut svc, step, 41);
    assert!(matches!(&calls[0], VfsCall::Storage(StorageCall::Delete { key }) if key == "content:/f"));
    assert!(matches!(&calls[1], VfsCall::Storage(StorageCall::Delete { key }) if key == "inode:/f"));
    assert!(matches!(svc.handle_storage_result(&frame(41, WRITE_OK, b""), &no_inode(), 0), VfsStep::Idle));
    match svc.handle_storage_result(&frame(42, WRITE_OK, b""), &no_inode(), 0) {
        VfsStep::Respond(r) => {
            assert_eq!(r.tag, MSG_VFS_UNLINK_RESPONSE);
            assert!(matches!(r.response, VfsResponse::Unlink(Ok(()))));
        }
        other => panic!("unexpected {:?}", other),
    }
}

#[test]
fn readdir_lists_entries_by_name() {
    let mut svc = VfsService::new();
    let step = svc.handle_readdir(6, Ok("/home".to_string()));
    start(&mut svc, step, 50);
    match svc.handle_storage_result(&frame(50, LIST_OK, br#"["/home/a","/home/b/c"]"#), &no_inode(), 0) {
        VfsStep::Respond(r) => {
            assert_eq!(r.tag, MSG_VFS_READDIR_RESPONSE);
            match r.response {
                VfsResponse::Readdir(Ok(es)) => {
                    let names: Vec<&str> = es.iter().map(|e| e.name.as_str()).collect();
                    assert_eq!(names, vec!["a", "c"]);
                    assert_eq!(es[1].path, "/home/b/c");
                }
                other => panic!("unexpected {:?}", other),
            }
        }
        other => panic!("unexpected {:?}", other),
    }
    let step = svc.handle_readdir(6, Ok("/home".to_string()));
    start(&mut svc, step, 51);
    match svc.handle_storage_result(&frame(51, NOT_FOUND, b""), &no_inode(), 0) {
        VfsStep::Respond(r) => assert!(matches!(r.response, VfsResponse::Readdir(Ok(ref es)) if es.is_empty())),
        other => panic!("unexpected {:?}", other),
    }
}

#[test]
fn exists_check_reads_the_flag_byte() {
    let mut svc = VfsService::new();
    let step = svc.handle_exists(1, Ok("/p".to_string()));
    start(&mut svc, step, 60);
    match svc.handle_storage_result(&frame(60, EXISTS_OK, &[1]), &no_inode(), 0) {
        VfsStep::Respond(r) => assert!(matches!(r.response, VfsResponse::Exists(true))),
        other => panic!("unexpected {:?}", other),
    }
    svc.storage_started(&VfsCall::Storage(StorageCall::Exists { key: String::new() }), Ok(61), VfsPendingOp::GetInode { client_pid: 1, path: "/q".to_string(), op_type: InodeOp::Exists }).unwrap();
    match svc.handle_storage_result(&frame(61, NOT_FOUND, b""), &no_inode(), 0) {
        VfsStep::Respond(r) => assert!(matches!(r.response, VfsResponse::Exists(false))),
        other => panic!("unexpected {:?}", other),
    }
}
