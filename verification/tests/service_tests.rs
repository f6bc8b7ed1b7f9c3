use zos_apps::app::Message;
use zos_apps::error::AppError;
use zos_apps::network_service::{NetStep, NetworkService, MSG_NET_REQUEST, MSG_NET_RESPONSE, MSG_NET_RESULT, NET_OK};
use zos_apps::service::{
    fallback_line, parse_result_frame, registration_payload, storage_failure, Reply, StorageCall,
    READ_OK, WRITE_OK,
};
use zos_apps::time_service::{
    PendingOp, TimeService, TimeSettings, TimeStep, MSG_GET_TIME_SETTINGS,
    MSG_GET_TIME_SETTINGS_RESPONSE, MSG_SET_TIME_SETTINGS, MSG_SET_TIME_SETTINGS_RESPONSE,
};

fn frame(request_id: u32, result_type: u8, data: &[u8]) -> Vec<u8> {
    let mut v = request_id.to_le_bytes().to_vec();
    v.push(result_type);
    v.extend_from_slice(&(data.len() as u32).to_le_bytes());
    v.extend_from_slice(data);
    v
}

#[test]
fn result_frames() {
    assert!(parse_result_frame(&[0; 8]).is_none());
    let f = parse_result_frame(&frame(0x01020304, 5, b"xyz")).unwrap();
    assert_eq!(f.request_id, 0x01020304);
    assert_eq!(f.result_type, 5);
    assert_eq!(f.data_len, 3);
    assert_eq!(f.data, b"xyz".to_vec());
    // A declared length past the end gives no data.
    let mut short = frame(1, 0, b"abc");
    short.truncate(10);
    assert!(parse_result_frame(&short).unwrap().data.is_empty());
}

#[test]
fn debug_channel_line() {
    let reply = Reply { to_pid: 12, reply_slot: None, tag: 0x8002, data: vec![0xab, 0x01] };
    assert_eq!(fallback_line("SERVICE", &reply), "SERVICE:RESPONSE:12:00008002:ab01");
}

#[test]
fn registration_message() {
    assert_eq!(registration_payload("time"), vec![4, b't', b'i', b'm', b'e', 0, 0, 0, 0, 0, 0, 0, 0]);
}

#[test]
fn storage_failure_text() {
    let call = StorageCall::Delete { key: "k".to_string() };
    match storage_failure(&call, 17) {
        AppError::IpcError(m) => assert_eq!(m, "Storage delete failed: 17"),
        other => panic!("unexpected {:?}", other),
    }
}

#[test]
fn time_settings_json() {
    let s = TimeSettings { time_format_24h: true, timezone: "Europe/Paris".to_string() };
    assert_eq!(
        String::from_utf8(s.to_json()).unwrap(),
        r#"{"time_format_24h":true,"timezone":"Europe/Paris"}"#
    );
    assert_eq!(TimeSettings::storage_path(), "/system/settings/time.json");
}

#[test]
fn time_settings_roundtrip() {
    for (flag, tz) in [(true, "UTC"), (false, "America/New_York"), (false, "")] {
        let s = TimeSettings { time_format_24h: flag, timezone: tz.to_string() };
        let back = TimeSettings::from_json(&s.to_json()).unwrap();
        assert_eq!(back.time_format_24h, flag);
        assert_eq!(back.timezone, tz);
    }
}

#[test]
fn time_settings_parsing_defaults() {
    let s = TimeSettings::from_json(b"{}").unwrap();
    assert!(!s.time_format_24h);
    assert_eq!(s.timezone, "UTC");
    let s = TimeSettings::from_json(br#"{"timezone":"Asia/Tokyo"#).unwrap();
    assert_eq!(s.timezone, "UTC");
    assert!(TimeSettings::from_json(&[0xff, 0xfe]).is_none());
    let d = TimeSettings::default();
    assert!(!d.time_format_24h);
    assert_eq!(d.timezone, "");
}

fn msg(tag: u32, pid: u32, slots: Vec<u32>, data: Vec<u8>) -> Message {
    Message::new(tag, pid, slots, data)
}

#[test]
fn time_service_get_reads_then_answers_from_cache() {
    let mut svc = TimeService::new();
    let step = svc.on_message(&msg(MSG_GET_TIME_SETTINGS, 9, vec![3], vec![]));
    let op = match step {
        TimeStep::Storage { call: StorageCall::Read { key }, op } => {
            assert_eq!(key, "content:/system/settings/time.json");
            op
        }
        other => panic!("unexpected {:?}", other),
    };
    assert!(svc.storage_started(&StorageCall::Read { key: String::new() }, Ok(77), op).is_ok());
    let stored = br#"{"time_format_24h":true,"timezone":"Europe/Berlin"}"#;
    match svc.handle_storage_result(&msg(0, 0, vec![], frame(77, READ_OK, stored))) {
        TimeStep::Respond(r) => {
            assert_eq!(r.to_pid, 9);
            assert_eq!(r.reply_slot, Some(3));
            assert_eq!(r.tag, MSG_GET_TIME_SETTINGS_RESPONSE);
            assert_eq!(r.data, stored.to_vec());
        }
        other => panic!("unexpected {:?}", other),
    }
    // Now cached: answered at once.
    match svc.on_message(&msg(MSG_GET_TIME_SETTINGS, 4, vec![], vec![])) {
        TimeStep::Respond(r) => {
            assert_eq!(r.to_pid, 4);
            assert_eq!(r.reply_slot, None);
            assert_eq!(r.data, stored.to_vec());
        }
        other => panic!("unexpected {:?}", other),
    }
}

#[test]
fn time_service_set_writes_and_confirms() {
    let mut svc = TimeService::new();
    let body = br#"{"time_format_24h":false,"timezone":"UTC"}"#.to_vec();
    let op = match svc.on_message(&msg(MSG_SET_TIME_SETTINGS, 5, vec![], body.clone())) {
        TimeStep::Storage { call: StorageCall::Write { key, value }, op } => {
            assert_eq!(key, "content:/system/settings/time.json");
            assert_eq!(value, body);
            op
        }
        other => panic!("unexpected {:?}", other),
    };
    svc.storage_started(&StorageCall::Read { key: String::new() }, Ok(1), op).unwrap();
    match svc.handle_storage_result(&msg(0, 0, vec![], frame(1, WRITE_OK, b""))) {
        TimeStep::Respond(r) => {
            assert_eq!(r.tag, MSG_SET_TIME_SETTINGS_RESPONSE);
            assert_eq!(r.data, body);
        }
        other => panic!("unexpected {:?}", other),
    }    // The same result again is not acted on a second time.
    assert!(matches!(svc.handle_storage_result(&msg(0, 0, vec![], frame(1, WRITE_OK, b""))), TimeStep::Idle));
}

#[test]
fn time_service_errors() {
    let mut svc = TimeService::new();
    match svc.on_message(&msg(MSG_SET_TIME_SETTINGS, 5, vec![], vec![0xff])) {
        TimeStep::Respond(r) => {
            assert_eq!(r.tag, MSG_SET_TIME_SETTINGS_RESPONSE);
            assert_eq!(r.data, br#"{"error":"Invalid settings format"}"#.to_vec());
        }
        other => panic!("unexpected {:?}", other),
    }
    let op = PendingOp::WriteSettings {
        client_pid: 2,
        settings: TimeSettings { time_format_24h: true, timezone: "UTC".to_string() },
        cap_slots: vec![],
    };
    svc.storage_started(&StorageCall::Read { key: String::new() }, Ok(8), op).unwrap();
    match svc.handle_storage_result(&msg(0, 0, vec![], frame(8, 3, b""))) {
        TimeStep::Respond(r) => assert_eq!(r.data, br#"{"error":"Write failed"}"#.to_vec()),
        other => panic!("unexpected {:?}", other),
    }
    match svc.storage_started(&StorageCall::Read { key: String::new() }, Err(4), PendingOp::InitialLoad) {
        Err(AppError::IpcError(m)) => assert_eq!(m, "Storage read failed: 4"),
        other => panic!("unexpected {:?}", other),
    }
    // Unknown ids and short frames are ignored.
    assert!(matches!(svc.handle_storage_result(&msg(0, 0, vec![], frame(999, 0, b""))), TimeStep::Idle));
    assert!(matches!(svc.handle_storage_result(&msg(0, 0, vec![], vec![1, 2])), TimeStep::Idle));
}

#[test]
fn time_service_initial_load() {
    let mut svc = TimeService::new();
    let op = match svc.init() {
        TimeStep::Storage { op, .. } => op,
        other => panic!("unexpected {:?}", other),
    };
    svc.storage_started(&StorageCall::Read { key: String::new() }, Ok(3), op).unwrap();
    assert!(matches!(svc.handle_storage_result(&msg(0, 0, vec![], frame(3, 2, b""))), TimeStep::Idle));
    match svc.on_message(&msg(MSG_GET_TIME_SETTINGS, 1, vec![], vec![])) {
        TimeStep::Respond(r) => {
            assert_eq!(r.data, br#"{"time_format_24h":false,"timezone":"UTC"}"#.to_vec())
        }
        other => panic!("unexpected {:?}", other),
    }
}

#[test]
fn network_request_and_result() {
    let mut svc = NetworkService::new();
    let (request, pending) = match svc.on_message(&msg(MSG_NET_REQUEST, 11, vec![], b"GET".to_vec())) {
        NetStep::Fetch { request, pending } => (request, pending),
        other => panic!("unexpected {:?}", other),
    };
    assert_eq!(request, b"GET".to_vec());
    assert_eq!(pending.client_pid, 11);
    assert_eq!(pending.client_request_id, 1);
    assert!(matches!(svc.fetch_started(Ok(500), pending), NetStep::Idle));
    match svc.on_message(&msg(MSG_NET_RESULT, 0, vec![], frame(500, NET_OK, b"body"))) {
        NetStep::Respond(r) => {
            assert_eq!(r.to_pid, 11);
            assert_eq!(r.tag, MSG_NET_RESPONSE);
            assert_eq!(r.data, b"\x01\x00\x00\x00body".to_vec());
        }
        other => panic!("unexpected {:?}", other),
    }
    // The second request gets the next id.
    match svc.on_message(&msg(MSG_NET_REQUEST, 11, vec![], vec![])) {
        NetStep::Fetch { pending, .. } => assert_eq!(pending.client_request_id, 2),
        other => panic!("unexpected {:?}", other),
    }
}

#[test]
fn network_errors_are_json() {
    let mut svc = NetworkService::new();
    let pending = match svc.handle_net_request(&msg(MSG_NET_REQUEST, 3, vec![], vec![])) {
        NetStep::Fetch { pending, .. } => pending,
        other => panic!("unexpected {:?}", other),
    };
    match svc.fetch_started(Err(1), pending) {
        NetStep::Respond(r) => assert_eq!(
            r.data,
            [&1u32.to_le_bytes()[..], br#"{"result":{"Err":{"Other":"Failed to start network operation"}}}"#].concat()
        ),
        other => panic!("unexpected {:?}", other),
    }
    svc.fetch_started(Ok(9), pending);
    match svc.handle_net_result(&msg(MSG_NET_RESULT, 0, vec![], frame(9, 1, br#"bad "host""#))) {
        NetStep::Respond(r) => assert_eq!(
            r.data,
            [&1u32.to_le_bytes()[..], br#"{"result":{"Err":{"Other":"bad \"host\""}}}"#].concat()
        ),
        other => panic!("unexpected {:?}", other),
    }
    svc.fetch_started(Ok(10), pending);
    match svc.handle_net_result(&msg(MSG_NET_RESULT, 0, vec![], frame(10, 1, b""))) {
        NetStep::Respond(r) => assert_eq!(
            r.data,
            [&1u32.to_le_bytes()[..], br#"{"result":{"Err":{"Other":"Network error"}}}"#].concat()
        ),
        other => panic!("unexpected {:?}", other),
    }
    assert!(matches!(svc.handle_net_result(&msg(MSG_NET_RESULT, 0, vec![], frame(10, 0, b""))), NetStep::Idle));
}
