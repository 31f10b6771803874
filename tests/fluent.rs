use std::collections::BTreeMap;
use std::time::Duration;

use tokio::sync::broadcast::channel;
use tokio_fluent::backoff::backoff_wait;
use tokio_fluent::client::{queue_outcome, stop_message, Client, Config, FluentClient, NopClient};
use tokio_fluent::codec::{chunk_from_id, encode, new_chunk, new_record, record_with_id};
use tokio_fluent::worker::{
    after_read, check_ack, lifetime_reached, on_received, CycleVerdict, Error, Message, Options,
    Received, Record, RetryAction, RetryConfig, WorkerAction,
};

fn payload(key: &str, value: i64) -> Vec<u8> {
    let mut m = BTreeMap::new();
    m.insert(key.to_string(), value);
    rmp_serde::to_vec(&m).unwrap()
}

fn defaults() -> RetryConfig {
    RetryConfig { initial_wait: 500, max: 10, max_wait: 60000 }
}

#[test]
fn test_send_with_time() {
    let (sender, mut receiver) = channel(1024);
    let client = Client::with_sender(sender);

    let timestamp = 1234567;
    let record = payload("age", 20);
    assert!(
        client.send_with_time("test", record, timestamp).is_ok(),
        "failed to send with time"
    );

    let got = receiver.try_recv().expect("failed to receive");
    match got {
        Message::Record(r) => {
            assert_eq!(r.tag, "test");
            assert_eq!(r.record, payload("age", 20));
            assert_eq!(r.timestamp, 1234567);
        }
        Message::Terminate => unreachable!("got terminate message"),
    }
}

#[test]
fn test_stop() {
    let (sender, mut receiver) = channel(1024);
    let client = Client::with_sender(sender);
    assert!(client.stop().is_ok(), "faled to stop");

    let got = receiver.try_recv().expect("failed to receive");
    match got {
        Message::Record(_) => unreachable!("got record message"),
        Message::Terminate => {}
    };
}

#[test]
fn test_client_drop_sends_terminate() {
    let (sender, mut receiver) = channel(1024);
    {
        Client::with_sender(sender);
    }
    let got = receiver.try_recv().expect("failed to receive");
    match got {
        Message::Record(_) => unreachable!("got record message"),
        Message::Terminate => {}
    };
}

#[test]
fn test_default_config() {
    let config: Config = Default::default();
    assert_eq!(Duration::from_millis(config.timeout), Duration::new(3, 0));
    assert_eq!(config.retry_wait, 500);
    assert_eq!(config.max_retry, 10);
    assert_eq!(config.max_retry_wait, 60000);
    assert_eq!(
        Duration::from_millis(config.max_connection_lifetime),
        Duration::from_secs(0)
    );
    let retry = config.retry_config();
    assert_eq!(retry.initial_wait, 500);
    assert_eq!(retry.max, 10);
    assert_eq!(retry.max_wait, 60000);
}

#[test]
fn send_succeeds_while_open_and_fails_once_closed() {
    let (sender, receiver) = channel(1024);
    let client = Client::with_sender(sender);
    assert!(client.send_with_time("app.log", payload("k", 1), 1).is_ok());
    assert!(client.send("app.log", payload("k", 2)).is_ok());
    drop(receiver);
    let err = client.send_with_time("app.log", payload("k", 3), 3).unwrap_err();
    assert_eq!(err.message(), "channel closed");
    assert!(client.stop().is_err());
}

#[test]
fn nop_client_accepts_everything() {
    let c = NopClient;
    assert!(c.send("t", payload("a", 1)).is_ok());
    assert!(c.stop().is_ok());
}

#[test]
fn default_backoff_sequence() {
    assert_eq!(backoff_wait(500, 60000, 0), 333);
    assert_eq!(backoff_wait(500, 60000, 1), 500);
    assert_eq!(backoff_wait(500, 60000, 2), 750);
    assert_eq!(backoff_wait(500, 60000, 3), 1125);
    assert_eq!(backoff_wait(500, 60000, 4), 1687);
    assert_eq!(backoff_wait(500, 60000, 5), 2531);
    let cfg = defaults();
    let mut last = 0;
    for i in 0..40 {
        let w = cfg.wait_after(i);
        assert!(w >= last);
        assert!(w <= 60000);
        last = w;
    }
    assert_eq!(cfg.wait_after(39), 60000);
}

#[test]
fn backoff_edges() {
    assert_eq!(backoff_wait(0, 60000, 7), 0);
    assert_eq!(backoff_wait(500, 100, 0), 100);
    assert_eq!(backoff_wait(1, u64::MAX, 1), 1);
    assert_eq!(backoff_wait(1, u64::MAX, 3), 2);
    assert_eq!(backoff_wait(u64::MAX, u64::MAX, 2), u64::MAX);
    assert_eq!(backoff_wait(1, u64::MAX, u32::MAX), u64::MAX);
    assert_eq!(backoff_wait(3, 1000, 0), 2);
}

#[test]
fn retry_actions() {
    let cfg = defaults();
    assert!(matches!(cfg.next_action(0, 0), RetryAction::Attempt { wait_ms: 0 }));
    assert!(matches!(cfg.next_action(9, 42), RetryAction::Attempt { wait_ms: 42 }));
    assert!(matches!(
        cfg.next_action(10, 42),
        RetryAction::Finish(Err(Error::MaxRetriesExceeded))
    ));
    let none = RetryConfig { initial_wait: 500, max: 0, max_wait: 60000 };
    assert!(matches!(
        none.next_action(0, 0),
        RetryAction::Finish(Err(Error::MaxRetriesExceeded))
    ));
}

#[test]
fn ack_mismatch_is_retried() {
    let cfg = defaults();
    let chunk = "abc".to_string();
    let outcome = check_ack("xyz".to_string(), &chunk);
    match &outcome {
        Err(Error::AckUnmatched(a, c)) => {
            assert_eq!(a, "xyz");
            assert_eq!(c, "abc");
        }
        _ => panic!("expected a mismatch"),
    }
    assert_eq!(
        outcome.as_ref().unwrap_err().message(),
        "request chunk and response ack did not match"
    );
    match cfg.on_cycle(0, outcome) {
        CycleVerdict::Retry { next_attempt, wait_ms } => {
            assert_eq!(next_attempt, 1);
            assert_eq!(wait_ms, 333);
        }
        CycleVerdict::Finished(_) => panic!("a mismatch must be retried"),
    }
    assert!(check_ack("abc".to_string(), &chunk).is_ok());
    assert!(matches!(cfg.on_cycle(3, Ok(())), CycleVerdict::Finished(Ok(()))));
}

#[test]
fn closed_connection_ends_delivery() {
    let cfg = defaults();
    let read = after_read(Ok(0));
    assert!(matches!(read, Some(Error::ConnectionClosed)));
    assert!(matches!(
        cfg.on_cycle(0, Err(read.unwrap())),
        CycleVerdict::Finished(Err(Error::ConnectionClosed))
    ));
    assert!(after_read(Ok(5)).is_none());
    match after_read(Err("broken pipe".to_string())) {
        Some(Error::ReadFailed(e)) => assert_eq!(e, "broken pipe"),
        _ => panic!("expected a read failure"),
    }
}

#[test]
fn write_failure_is_retried() {
    let cfg = defaults();
    match cfg.on_cycle(2, Err(Error::WriteFailed("reset".to_string()))) {
        CycleVerdict::Retry { next_attempt, wait_ms } => {
            assert_eq!(next_attempt, 3);
            assert_eq!(wait_ms, 750);
        }
        CycleVerdict::Finished(_) => panic!("a write failure must be retried"),
    }
}

#[test]
fn error_messages() {
    assert_eq!(Error::WriteFailed("w".to_string()).message(), "w");
    assert_eq!(Error::ReadFailed("r".to_string()).message(), "r");
    assert_eq!(Error::MaxRetriesExceeded.message(), "max retries exceeded");
    assert_eq!(Error::ConnectionClosed.message(), "connection closed");
}

#[test]
fn worker_loop_steps() {
    let rec = new_record("t", payload("a", 1), 5);
    match on_received(Received::Message(Message::Record(rec))) {
        WorkerAction::Deliver(r) => assert_eq!(r.tag, "t"),
        _ => panic!("expected delivery"),
    }
    assert!(matches!(on_received(Received::Message(Message::Terminate)), WorkerAction::Stop));
    assert!(matches!(on_received(Received::Closed), WorkerAction::Stop));
    assert!(matches!(on_received(Received::Lagged), WorkerAction::Skip));
}

#[test]
fn connection_lifetime() {
    assert!(!lifetime_reached(0, 1_000_000_000));
    assert!(!lifetime_reached(100_000_000, 50_000_000));
    assert!(lifetime_reached(100_000_000, 100_000_000));
    assert!(lifetime_reached(100_000_000, 150_000_000));
}

#[test]
fn encode_round_trips() {
    let rec = record_with_id("app.log", payload("k", 7), 1234567, &[0u8; 16]);
    let enc = encode(&rec).expect("encodes");
    assert_eq!(enc.chunk, rec.options.chunk);
    let (tag, ts, body, options): (String, i64, BTreeMap<String, i64>, BTreeMap<String, String>) =
        rmp_serde::from_slice(&enc.record).unwrap();
    assert_eq!(tag, "app.log");
    assert_eq!(ts, 1234567);
    assert_eq!(body.get("k"), Some(&7));
    assert_eq!(options.len(), 1);
    assert_eq!(options.get("chunk").unwrap(), &rec.options.chunk);
    assert!(!options["chunk"].is_empty());
    assert_eq!(enc.record[0], 0x94);
}

#[test]
fn encode_keeps_negative_timestamps() {
    let rec = Record {
        tag: "t".to_string(),
        timestamp: -5,
        record: payload("x", -1),
        options: Options { chunk: "c".to_string() },
    };
    let enc = encode(&rec).unwrap();
    let (_, ts, _, _): (String, i64, BTreeMap<String, i64>, BTreeMap<String, String>) =
        rmp_serde::from_slice(&enc.record).unwrap();
    assert_eq!(ts, -5);
}

#[test]
fn chunk_is_base64_of_the_id() {
    assert_eq!(chunk_from_id(&[0u8; 16]), "AAAAAAAAAAAAAAAAAAAAAA==");
    assert_eq!(chunk_from_id(b"abc"), "YWJj");
    let rec = record_with_id("t", vec![0x80], 1, b"ab");
    assert_eq!(rec.options.chunk, "YWI=");
}

#[test]
fn fresh_chunks_differ() {
    let a = new_chunk();
    let b = new_chunk();
    assert_eq!(a.len(), 24);
    assert_ne!(a, b);
    let rec = new_record("t", vec![0x80], 9);
    assert_eq!(rec.options.chunk.len(), 24);
    assert_eq!(rec.timestamp, 9);
}

fn timestamp_bytes(ts: i64) -> Vec<u8> {
    let rec = Record {
        tag: "t".to_string(),
        timestamp: ts,
        record: vec![0x80],
        options: Options { chunk: "c".to_string() },
    };
    let enc = encode(&rec).unwrap();
    // 0x94, then "t" as 0xa1 0x74, then the timestamp, then 0x80 0x81 ...
    let end = enc.record.len() - 1 - 1 - 6 - 2;
    enc.record[3..end].to_vec()
}

#[test]
fn encode_writes_the_shortest_integer_forms() {
    assert_eq!(timestamp_bytes(1234567), vec![0xce, 0x00, 0x12, 0xd6, 0x87]);
    assert_eq!(timestamp_bytes(5), vec![0x05]);
    assert_eq!(timestamp_bytes(-5), vec![0xfb]);
    assert_eq!(timestamp_bytes(-100), vec![0xd0, 0x9c]);
    assert_eq!(timestamp_bytes(200), vec![0xcc, 0xc8]);
    assert_eq!(timestamp_bytes(-1000), vec![0xd1, 0xfc, 0x18]);
    assert_eq!(
        timestamp_bytes(1_700_000_000_000),
        vec![0xcf, 0x00, 0x00, 0x01, 0x8b, 0xcf, 0xe5, 0x68, 0x00]
    );
}

#[test]
fn encode_frames_the_whole_record() {
    let rec = Record {
        tag: "t".to_string(),
        timestamp: 1,
        record: vec![0x80],
        options: Options { chunk: "c".to_string() },
    };
    let enc = encode(&rec).unwrap();
    assert_eq!(
        enc.record,
        vec![0x94, 0xa1, b't', 0x01, 0x80, 0x81, 0xa5, b'c', b'h', b'u', b'n', b'k', 0xa1, b'c']
    );
    assert_eq!(enc.chunk, "c");
}

#[test]
fn queue_answers_map_to_results() {
    assert!(queue_outcome(true).is_ok());
    assert_eq!(queue_outcome(false).unwrap_err().message(), "channel closed");
    assert!(matches!(stop_message(), Message::Terminate));
}

#[test]
fn distinct_ids_give_distinct_chunks() {
    let a = record_with_id("t", vec![0x80], 1, &[1u8; 16]);
    let b = record_with_id("t", vec![0x80], 1, &[2u8; 16]);
    assert_eq!(a.options.chunk.len(), 24);
    assert_ne!(a.options.chunk, b.options.chunk);
}
