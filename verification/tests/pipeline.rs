use slog_async::channel::{AsyncCore, VecDrain, WorkerStep};
use slog_async::facade::{event_counter_add, notice_counter_readd, Async};
use slog_async::record::{duplicate_kvs, KvPair, Level, Location, OwnedValue, RecordData};
use slog_async::ser::ToSendSerializer;
use slog_async::AsyncError;

fn loc() -> Location {
    Location {
        file: "app.rs".to_string(),
        line: 7,
        column: 3,
        function: "work".to_string(),
        module: "app".to_string(),
    }
}

fn rec(msg: &str) -> RecordData {
    RecordData {
        msg: msg.to_string(),
        level: Level::Info,
        location: loc(),
        tag: "app".to_string(),
        logger_kvs: Vec::new(),
        kvs: Vec::new(),
    }
}

const NOTICE_MSG: &str = "dropped messages due to channel overflow";

#[test]
fn send_full_at_capacity() {
    let mut core = AsyncCore::custom(VecDrain::new()).chan_size(2).build();
    assert!(matches!(core.send(rec("a")), Ok(())));
    assert!(matches!(core.send(rec("b")), Ok(())));
    assert!(matches!(core.send(rec("c")), Err(AsyncError::Full)));
    // After the worker takes one, there is room again.
    assert!(matches!(core.worker_step(), WorkerStep::Processed));
    assert!(matches!(core.send(rec("c")), Ok(())));
}

#[test]
fn worker_processes_in_send_order() {
    let mut core = AsyncCore::new(VecDrain::new());
    assert_eq!(core.capacity, 128);
    for name in ["a", "b", "c"] {
        assert!(core.send(rec(name)).is_ok());
    }
    let sink = core.dispose();
    let msgs: Vec<&str> = sink.records.iter().map(|r| r.msg.as_str()).collect();
    assert_eq!(msgs, ["a", "b", "c"]);
}

#[test]
fn worker_step_reports_progress() {
    let mut core = AsyncCore::custom(VecDrain::new()).chan_size(4).build();
    assert!(matches!(core.worker_step(), WorkerStep::Idle));
    assert!(core.send(rec("only")).is_ok());
    assert!(matches!(core.worker_step(), WorkerStep::Processed));
    assert_eq!(core.sink.records.len(), 1);
    assert_eq!(core.sink.records[0].msg, "only");
    assert!(matches!(core.worker_step(), WorkerStep::Idle));
}

#[test]
fn facade_absorbs_overflow_and_reports_count() {
    // Capacity 2; A, B, C sent rapidly with the worker paused: A and B are
    // queued, C is dropped and counted. After the worker drains A and B, the
    // next log first emits the drop notice, then the new record.
    let mut a = Async::new(VecDrain::new()).chan_size(2).build();
    assert!(a.log(rec("a")).is_ok());
    assert!(a.log(rec("b")).is_ok());
    assert!(a.log(rec("c")).is_ok());
    assert_eq!(a.dropped, 1);
    assert!(matches!(a.core.worker_step(), WorkerStep::Processed));
    assert!(matches!(a.core.worker_step(), WorkerStep::Processed));
    assert!(a.log(rec("d")).is_ok());
    assert_eq!(a.dropped, 0);
    let sink = a.dispose();
    let msgs: Vec<&str> = sink.records.iter().map(|r| r.msg.as_str()).collect();
    assert_eq!(msgs, ["a", "b", NOTICE_MSG, "d"]);
    let notice = &sink.records[2];
    assert_eq!(notice.level, Level::Error);
    assert_eq!(notice.tag, "slog-async");
    assert_eq!(notice.kvs.len(), 1);
    assert_eq!(notice.kvs[0].key, "count");
    assert_eq!(notice.kvs[0].value, OwnedValue::Usize(1));
}

#[test]
fn failed_notice_flush_is_recounted() {
    // While the queue stays full, flushing the notice fails too: the count is
    // re-added with one more for the notice itself, and reported once a later
    // call finds room.
    let mut a = Async::new(VecDrain::new()).chan_size(2).build();
    assert!(a.log(rec("a")).is_ok());
    assert!(a.log(rec("b")).is_ok());
    assert!(a.log(rec("c")).is_ok());
    assert_eq!(a.dropped, 1);
    assert!(a.log(rec("d")).is_ok());
    // The notice (counting 1) was dropped (now 2 counting the notice), and d
    // was dropped on top (3).
    assert_eq!(a.dropped, 3);
    assert!(matches!(a.core.worker_step(), WorkerStep::Processed));
    assert!(matches!(a.core.worker_step(), WorkerStep::Processed));
    assert!(a.log(rec("e")).is_ok());
    assert_eq!(a.dropped, 0);
    let sink = a.dispose();
    let msgs: Vec<&str> = sink.records.iter().map(|r| r.msg.as_str()).collect();
    assert_eq!(msgs, ["a", "b", NOTICE_MSG, "e"]);
    assert_eq!(sink.records[2].kvs[0].value, OwnedValue::Usize(3));
}

#[test]
fn dispose_flushes_pending_count() {
    let mut a = Async::new(VecDrain::new()).chan_size(1).build();
    assert!(a.log(rec("a")).is_ok());
    assert!(a.log(rec("b")).is_ok());
    assert_eq!(a.dropped, 1);
    assert!(matches!(a.core.worker_step(), WorkerStep::Processed));
    let sink = a.dispose();
    let msgs: Vec<&str> = sink.records.iter().map(|r| r.msg.as_str()).collect();
    assert_eq!(msgs, ["a", NOTICE_MSG]);
    let notice = &sink.records[1];
    assert_eq!(notice.kvs[0].value, OwnedValue::Usize(1));
    assert_eq!(notice.logger_kvs.len(), 0);
}

#[test]
fn dispose_drains_everything_queued() {
    let mut a = Async::new(VecDrain::new()).chan_size(8).build();
    for name in ["a", "b", "c", "d", "e"] {
        assert!(a.log(rec(name)).is_ok());
    }
    assert_eq!(a.dropped, 0);
    let sink = a.dispose();
    let msgs: Vec<&str> = sink.records.iter().map(|r| r.msg.as_str()).collect();
    assert_eq!(msgs, ["a", "b", "c", "d", "e"]);
}

#[test]
fn materialized_kvs_stay_owned_and_typed() {
    // A record carrying a string, an integer, a boolean and an absent value
    // comes out of the pipeline with four owned entries of matching keys,
    // types and values.
    let mut core = AsyncCore::custom(VecDrain::new()).chan_size(4).build();
    let mut ser = ToSendSerializer::new();
    ser.emit_str("name".to_string(), "value".to_string());
    ser.emit_i64("answer".to_string(), -42);
    ser.emit_bool("ready".to_string(), true);
    ser.emit_none("missing".to_string());
    let logger_kvs = vec![KvPair { key: "app".to_string(), value: OwnedValue::U32(7) }];
    assert!(core
        .log(
            "hello".to_string(),
            Level::Warning,
            loc(),
            "app".to_string(),
            ser,
            logger_kvs,
        )
        .is_ok());
    assert!(matches!(core.worker_step(), WorkerStep::Processed));
    let seen = &core.sink.records[0];
    assert_eq!(seen.msg, "hello");
    assert_eq!(seen.level, Level::Warning);
    assert_eq!(seen.tag, "app");
    assert_eq!(seen.location.line, 7);
    assert_eq!(seen.logger_kvs.len(), 1);
    assert_eq!(seen.logger_kvs[0].value, OwnedValue::U32(7));
    assert_eq!(seen.kvs.len(), 4);
    assert_eq!(seen.kvs[0].key, "name");
    assert_eq!(seen.kvs[0].value, OwnedValue::Str("value".to_string()));
    assert_eq!(seen.kvs[1].key, "answer");
    assert_eq!(seen.kvs[1].value, OwnedValue::I64(-42));
    assert_eq!(seen.kvs[2].key, "ready");
    assert_eq!(seen.kvs[2].value, OwnedValue::Bool(true));
    assert_eq!(seen.kvs[3].key, "missing");
    assert_eq!(seen.kvs[3].value, OwnedValue::Absent);
}

#[test]
fn serializer_covers_every_value_kind() {
    let mut ser = ToSendSerializer::new();
    ser.emit_bool("b".to_string(), false);
    ser.emit_unit("u".to_string());
    ser.emit_none("n".to_string());
    ser.emit_char("c".to_string(), 'x');
    ser.emit_u8("u8".to_string(), 8);
    ser.emit_i8("i8".to_string(), -8);
    ser.emit_u16("u16".to_string(), 16);
    ser.emit_i16("i16".to_string(), -16);
    ser.emit_u32("u32".to_string(), 32);
    ser.emit_i32("i32".to_string(), -32);
    ser.emit_u64("u64".to_string(), 64);
    ser.emit_i64("i64".to_string(), -64);
    ser.emit_usize("us".to_string(), 5);
    ser.emit_isize("is".to_string(), -5);
    ser.emit_str("s".to_string(), "text".to_string());
    ser.emit_arguments("fmt".to_string(), format!("x={}", 3));
    let kvs = ser.finish();
    let expect = [
        ("b", OwnedValue::Bool(false)),
        ("u", OwnedValue::Unit),
        ("n", OwnedValue::Absent),
        ("c", OwnedValue::Char('x')),
        ("u8", OwnedValue::U8(8)),
        ("i8", OwnedValue::I8(-8)),
        ("u16", OwnedValue::U16(16)),
        ("i16", OwnedValue::I16(-16)),
        ("u32", OwnedValue::U32(32)),
        ("i32", OwnedValue::I32(-32)),
        ("u64", OwnedValue::U64(64)),
        ("i64", OwnedValue::I64(-64)),
        ("us", OwnedValue::Usize(5)),
        ("is", OwnedValue::Isize(-5)),
        ("s", OwnedValue::Str("text".to_string())),
        ("fmt", OwnedValue::Str("x=3".to_string())),
    ];
    assert_eq!(kvs.len(), expect.len());
    for (pair, (key, value)) in kvs.iter().zip(expect.iter()) {
        assert_eq!(pair.key.as_str(), *key);
        assert_eq!(&pair.value, value);
    }
}

#[test]
fn builders_pick_capacity() {
    let core = AsyncCore::custom(VecDrain::new()).chan_size(5).build();
    assert_eq!(core.capacity, 5);
    let a = Async::default(VecDrain::new());
    assert_eq!(a.core.capacity, 128);
    assert_eq!(a.dropped, 0);
    let b = Async::new(VecDrain::new()).chan_size(3).build();
    assert_eq!(b.core.capacity, 3);
}

#[test]
fn duplicates_are_equal() {
    let v = OwnedValue::Str("abc".to_string());
    assert_eq!(v.duplicate(), v);
    let p = KvPair { key: "k".to_string(), value: OwnedValue::I32(-1) };
    assert_eq!(p.duplicate(), p);
    let kvs = vec![
        KvPair { key: "a".to_string(), value: OwnedValue::Bool(true) },
        KvPair { key: "b".to_string(), value: OwnedValue::Str("s".to_string()) },
    ];
    assert_eq!(duplicate_kvs(&kvs), kvs);
}

#[test]
fn counter_policy_helpers() {
    assert_eq!(notice_counter_readd(5, true), 6);
    assert_eq!(notice_counter_readd(5, false), 0);
    assert_eq!(notice_counter_readd(usize::MAX, true), usize::MAX);
    assert_eq!(event_counter_add(true), 1);
    assert_eq!(event_counter_add(false), 0);
}
