//! The identifier and time wrappers, and the task entity's serialization,
//! held against the outside crates they rely on.

use lib_rpc::ident::{parse_uuid, uuid_string};
use lib_rpc::task::Task;
use lib_rpc::time_utils::{format_time, now_utc, parse_utc, Moment, TimeError};
use lib_rpc::serialize::IntoJson;
use lib_rpc::value::Value;

const SOME_UUID: &str = "dff86abf-4769-4269-92fa-4461f75ea5e3";

#[test]
fn parse_uuid_reads_the_text() {
    let n = parse_uuid(SOME_UUID).expect("valid uuid");
    assert_eq!(n, uuid::Uuid::parse_str(SOME_UUID).unwrap().as_u128());
    assert!(parse_uuid("not-a-uuid").is_none());
    assert!(parse_uuid("").is_none());
}

#[test]
fn uuid_string_writes_the_canonical_text() {
    let n = uuid::Uuid::parse_str(SOME_UUID).unwrap().as_u128();
    assert_eq!(uuid_string(n), SOME_UUID);
    assert_eq!(uuid_string(1), "00000000-0000-0000-0000-000000000001");
    assert_eq!(uuid_string(0).len(), 36);
}

#[test]
fn uuid_round_trip() {
    let n = 0x1234_5678_9abc_def0_1122_3344_5566_7788u128;
    assert_eq!(parse_uuid(&uuid_string(n)), Some(n));
}

#[test]
fn parse_utc_reads_rfc3339() {
    let m = parse_utc("2024-01-15T10:30:00Z").expect("valid moment");
    assert_eq!(m.secs, 1705314600);
    assert_eq!(m.nanos, 0);

    let m = parse_utc("1970-01-01T00:00:00.25Z").expect("valid moment");
    assert_eq!(m.secs, 0);
    assert_eq!(m.nanos, 250_000_000);

    let m = parse_utc("2024-01-15T10:30:00+01:00").expect("offset moment");
    assert_eq!(m.secs, 1705314600 - 3600);

    match parse_utc("yesterday") {
        Err(TimeError::FailToDateParse(s)) => assert_eq!(s, "yesterday"),
        other => panic!("expected a parse failure, got {:?}", other),
    }
}

#[test]
fn format_time_writes_rfc3339() {
    let t = Moment {
        secs: 1705314600,
        nanos: 0,
    };
    assert_eq!(format_time(t), "2024-01-15T10:30:00Z");
    let t = Moment {
        secs: 0,
        nanos: 250_000_000,
    };
    assert_eq!(format_time(t), "1970-01-01T00:00:00.25Z");
}

#[test]
fn time_round_trip() {
    let t = Moment {
        secs: 1700000000,
        nanos: 123_000_000,
    };
    let m = parse_utc(&format_time(t)).expect("own text parses");
    assert_eq!((m.secs, m.nanos), (t.secs, t.nanos));
}

#[test]
fn now_utc_is_sane() {
    let t = now_utc();
    assert!(t.nanos < 1_000_000_000);
    // after 2020-01-01T00:00:00Z on any machine that runs this suite
    assert!(t.secs > 1_577_836_800);
}

#[test]
fn task_serializes_to_its_wire_shape() {
    let task = Task {
        id: 1,
        project_id: 2,
        title: "write the report".to_string(),
        done: false,
        cid: 3,
        ctime: Moment {
            secs: 1705314600,
            nanos: 0,
        },
        mid: 3,
        mtime: Moment {
            secs: 1705314601,
            nanos: 0,
        },
    };
    let v = task.to_json();
    let entries = match v {
        Value::Obj(entries) => entries,
        _ => panic!("expected an object"),
    };
    let field = |name: &str| -> &Value {
        &entries.iter().find(|e| e.0 == name).expect(name).1
    };
    match field("id") {
        Value::Text(s) => assert_eq!(s, "00000000-0000-0000-0000-000000000001"),
        _ => panic!("id should be a text"),
    }
    match field("project_id") {
        Value::Text(s) => assert_eq!(s, "00000000-0000-0000-0000-000000000002"),
        _ => panic!("project_id should be a text"),
    }
    match field("title") {
        Value::Text(s) => assert_eq!(s, "write the report"),
        _ => panic!("title should be a text"),
    }
    match field("done") {
        Value::Bool(b) => assert!(!b),
        _ => panic!("done should be a bool"),
    }
    match field("ctime") {
        Value::Text(s) => assert_eq!(s, "2024-01-15T10:30:00Z"),
        _ => panic!("ctime should be a text"),
    }
    match field("mtime") {
        Value::Text(s) => assert_eq!(s, "2024-01-15T10:30:01Z"),
        _ => panic!("mtime should be a text"),
    }
    assert_eq!(entries.len(), 8);
}
