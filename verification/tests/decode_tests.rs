use sten::decode::{
    decode_batch, decode_envelope, decode_events, folder_root, health_ok, DecodeError, RawEnvelope,
    RawPayload,
};
use sten::events::{Action, ChangeKind, EventData};

fn full_remote_payload() -> RawPayload {
    RawPayload {
        change_type: Some("file".to_string()),
        action: Some("modified".to_string()),
        folder: Some("abcd-1234".to_string()),
        path: Some("docs/report.pdf".to_string()),
        label: Some("Sync".to_string()),
        modified_by: Some("peer-7".to_string()),
        from: None,
        to: None,
        has_duration: false,
    }
}

fn empty_payload() -> RawPayload {
    RawPayload {
        change_type: None,
        action: None,
        folder: None,
        path: None,
        label: None,
        modified_by: None,
        from: None,
        to: None,
        has_duration: false,
    }
}

#[test]
fn remote_change_envelope_decodes() {
    let env = RawEnvelope {
        id: Some(17),
        global_id: Some(99),
        time: Some("2017-03-06T23:58:21.844739891+01:00".to_string()),
        event_type: Some("RemoteChangeDetected".to_string()),
        payload: full_remote_payload(),
    };
    let ev = decode_envelope(env).expect("a full remote change envelope decodes");
    assert_eq!(ev.id, 17);
    assert_eq!(ev.global_id, 99);
    assert_eq!(ev.time, "2017-03-06T23:58:21.844739891+01:00");
    match ev.data {
        EventData::RemoteChange(rc) => {
            assert!(matches!(rc.change_kind, ChangeKind::File));
            assert!(matches!(rc.action, Action::Modified));
            assert_eq!(rc.folder, "abcd-1234");
            assert_eq!(rc.rel_path, "docs/report.pdf");
            assert_eq!(rc.label, "Sync");
            assert_eq!(rc.modified_by, "peer-7");
        }
        _ => panic!("expected a remote change"),
    }
}

#[test]
fn state_change_envelope_decodes() {
    let env = RawEnvelope {
        id: Some(3),
        global_id: Some(3),
        time: Some("t".to_string()),
        event_type: Some("StateChanged".to_string()),
        payload: RawPayload {
            folder: Some("abcd-1234".to_string()),
            from: Some("idle".to_string()),
            to: Some("syncing".to_string()),
            has_duration: true,
            ..empty_payload()
        },
    };
    let ev = decode_envelope(env).expect("a full state change envelope decodes");
    match ev.data {
        EventData::StateChange(sc) => {
            assert_eq!(sc.folder, "abcd-1234");
            assert_eq!(sc.from, "idle");
            assert_eq!(sc.to, "syncing");
        }
        _ => panic!("expected a state change"),
    }
}

#[test]
fn unknown_tag_passes_through() {
    let env = RawEnvelope {
        id: Some(8),
        global_id: Some(8),
        time: Some("t".to_string()),
        event_type: Some("ClusterConfigReceived".to_string()),
        payload: empty_payload(),
    };
    let ev = decode_envelope(env).expect("an unknown tag is never a decode error");
    match ev.data {
        EventData::Other(o) => assert_eq!(o.event_type, "ClusterConfigReceived"),
        _ => panic!("expected the pass-through variant"),
    }
}

#[test]
fn missing_envelope_fields_fail() {
    let whole = |f: fn(&mut RawEnvelope)| {
        let mut env = RawEnvelope {
            id: Some(1),
            global_id: Some(2),
            time: Some("t".to_string()),
            event_type: Some("StateChanged".to_string()),
            payload: RawPayload {
                folder: Some("f".to_string()),
                from: Some("a".to_string()),
                to: Some("b".to_string()),
                has_duration: true,
                ..empty_payload()
            },
        };
        f(&mut env);
        decode_envelope(env)
    };
    assert_eq!(whole(|e| e.id = None).unwrap_err(), DecodeError::MissingId);
    assert_eq!(whole(|e| e.global_id = None).unwrap_err(), DecodeError::MissingGlobalId);
    assert_eq!(whole(|e| e.time = None).unwrap_err(), DecodeError::MissingTime);
    assert_eq!(whole(|e| e.event_type = None).unwrap_err(), DecodeError::MissingType);
}

#[test]
fn bad_remote_change_fails() {
    let with_payload = |p: RawPayload| {
        decode_envelope(RawEnvelope {
            id: Some(1),
            global_id: Some(1),
            time: Some("t".to_string()),
            event_type: Some("RemoteChangeDetected".to_string()),
            payload: p,
        })
    };
    let mut missing_folder = full_remote_payload();
    missing_folder.folder = None;
    assert_eq!(with_payload(missing_folder).unwrap_err(), DecodeError::BadRemoteChange);

    let mut odd_action = full_remote_payload();
    odd_action.action = Some("renamed".to_string());
    assert_eq!(with_payload(odd_action).unwrap_err(), DecodeError::BadRemoteChange);

    let mut odd_kind = full_remote_payload();
    odd_kind.change_type = Some("dir".to_string());
    assert_eq!(with_payload(odd_kind).unwrap_err(), DecodeError::BadRemoteChange);
}

#[test]
fn state_change_without_duration_fails() {
    let env = RawEnvelope {
        id: Some(1),
        global_id: Some(1),
        time: Some("t".to_string()),
        event_type: Some("StateChanged".to_string()),
        payload: RawPayload {
            folder: Some("f".to_string()),
            from: Some("a".to_string()),
            to: Some("b".to_string()),
            has_duration: false,
            ..empty_payload()
        },
    };
    assert_eq!(decode_envelope(env).unwrap_err(), DecodeError::BadStateChange);
}

#[test]
fn mixed_batch_decodes_with_pass_through() {
    let body = r#"[
        {"id": 5, "globalID": 5, "time": "t1", "type": "RemoteChangeDetected",
         "data": {"type": "file", "action": "deleted", "folder": "abcd-1234",
                  "path": "docs/report.pdf", "label": "Sync", "modifiedBy": "peer-7"}},
        {"id": 6, "globalID": 6, "time": "t2", "type": "LoginAttempt",
         "data": {"success": true}}
    ]"#;
    let events = decode_events(body).expect("one recognized and one unrecognized tag decode");
    assert_eq!(events.len(), 2);
    assert!(matches!(events[0].data, EventData::RemoteChange(_)));
    match &events[1].data {
        EventData::Other(o) => assert_eq!(o.event_type, "LoginAttempt"),
        _ => panic!("the unrecognized event must be represented, not dropped"),
    }
    assert_eq!(events[1].id, 6);
}

#[test]
fn legacy_folder_id_field_is_ignored() {
    let body = r#"[
        {"id": 9, "globalID": 9, "time": "t", "type": "RemoteChangeDetected",
         "data": {"type": "file", "action": "modified", "folderID": "legacy-ignored",
                  "folder": "abcd-1234", "path": "a.txt", "label": "Sync",
                  "modifiedBy": "peer-7", "someNewField": 12}}
    ]"#;
    let events = decode_events(body).expect("unknown payload fields are tolerated");
    match &events[0].data {
        EventData::RemoteChange(rc) => assert_eq!(rc.folder, "abcd-1234"),
        _ => panic!("expected a remote change"),
    }
}

#[test]
fn malformed_body_fails_the_batch() {
    assert_eq!(decode_events("not json").unwrap_err(), DecodeError::NotJson);
    assert_eq!(decode_events("{\"id\": 1}").unwrap_err(), DecodeError::NotArray);
    let no_id = r#"[{"globalID": 1, "time": "t", "type": "StateChanged",
        "data": {"folder": "f", "from": "a", "to": "b", "duration": 0.5}}]"#;
    assert_eq!(decode_events(no_id).unwrap_err(), DecodeError::MissingId);
}

#[test]
fn state_change_duration_is_a_number_not_text() {
    let text_duration = r#"[{"id": 1, "globalID": 1, "time": "t", "type": "StateChanged",
        "data": {"folder": "f", "from": "a", "to": "b", "duration": "0.5"}}]"#;
    assert_eq!(decode_events(text_duration).unwrap_err(), DecodeError::BadStateChange);
    let number_duration = r#"[{"id": 1, "globalID": 1, "time": "t", "type": "StateChanged",
        "data": {"folder": "f", "from": "a", "to": "b", "duration": 0.5}}]"#;
    assert!(decode_events(number_duration).is_ok());
}

#[test]
fn batch_keeps_server_order() {
    let envelope = |id: u64, tag: &str| RawEnvelope {
        id: Some(id),
        global_id: Some(id),
        time: Some("t".to_string()),
        event_type: Some(tag.to_string()),
        payload: empty_payload(),
    };
    let events = decode_batch(vec![
        envelope(5, "Ping"),
        envelope(7, "Pong"),
        envelope(9, "Ping"),
    ])
    .expect("pass-through envelopes decode");
    let ids: Vec<u64> = events.iter().map(|e| e.id).collect();
    assert_eq!(ids, vec![5, 7, 9]);
}

#[test]
fn batch_fails_with_the_first_error() {
    let good = RawEnvelope {
        id: Some(1),
        global_id: Some(1),
        time: Some("t".to_string()),
        event_type: Some("Ping".to_string()),
        payload: empty_payload(),
    };
    let no_time = RawEnvelope {
        id: Some(2),
        global_id: Some(2),
        time: None,
        event_type: Some("Ping".to_string()),
        payload: empty_payload(),
    };
    let no_id = RawEnvelope {
        id: None,
        global_id: Some(3),
        time: Some("t".to_string()),
        event_type: Some("Ping".to_string()),
        payload: empty_payload(),
    };
    assert_eq!(decode_batch(vec![good, no_time, no_id]).unwrap_err(), DecodeError::MissingTime);
}

#[test]
fn empty_batch_decodes_to_nothing() {
    let events = decode_events("[]").expect("an empty batch is valid");
    assert_eq!(events.len(), 0);
}

#[test]
fn health_body_recognized() {
    assert!(health_ok(r#"{"status": "OK"}"#));
    assert!(health_ok(r#"{"status": "ok"}"#));
    assert!(!health_ok(r#"{"status": "starting"}"#));
    assert!(!health_ok(r#"{"code": 200}"#));
    assert!(!health_ok("no json at all"));
}

#[test]
fn folder_root_read_from_config() {
    assert_eq!(
        folder_root(r#"{"id": "abcd-1234", "path": "/home/u/Sync"}"#),
        Some("/home/u/Sync".to_string())
    );
    assert_eq!(folder_root(r#"{"id": "abcd-1234"}"#), None);
    assert_eq!(folder_root("nonsense"), None);
}
