use sjl::clock::Timestamp;
use sjl::context::ContextStore;
use sjl::payload::Payload;
use sjl::record::Record;
use sjl::channel::RecvOutcome;
use sjl::worker::{event_of, Phase, Worker, WorkerEvent};
use sjl::LogLevel;
use std::sync::Arc;

fn numbered(n: u32) -> Record {
    Record::new(
        LogLevel::Info,
        None,
        Payload::Structured(n.to_string()),
        Timestamp::new(1761233445, n),
        Arc::new(ContextStore::new()),
    )
}

fn numbers(records: &[Record]) -> Vec<u32> {
    records.iter().map(|r| r.timestamp.nanos).collect()
}

#[test]
fn fresh_worker_accumulates() {
    let w = Worker::new(50);
    assert_eq!(w.phase(), Phase::Accumulating);
    assert_eq!(w.pending(), 0);
    assert_eq!(w.batch_size(), 50);
}

#[test]
fn full_batch_is_flushed_once_and_resets_the_deadline() {
    let mut w = Worker::new(3);
    let s1 = w.step(WorkerEvent::Received(numbered(1)));
    assert!(s1.flush.is_empty() && !s1.reset_deadline && !s1.exit);
    let s2 = w.step(WorkerEvent::Received(numbered(2)));
    assert!(s2.flush.is_empty() && !s2.reset_deadline && !s2.exit);
    assert_eq!(w.pending(), 2);
    let s3 = w.step(WorkerEvent::Received(numbered(3)));
    assert_eq!(numbers(&s3.flush), vec![1, 2, 3]);
    assert!(s3.reset_deadline);
    assert!(!s3.exit);
    assert_eq!(w.pending(), 0);
    assert_eq!(w.phase(), Phase::Accumulating);
}

#[test]
fn deadline_flushes_a_partial_batch_in_order() {
    let mut w = Worker::new(50);
    for n in 1..=4 {
        let s = w.step(WorkerEvent::Received(numbered(n)));
        assert!(s.flush.is_empty());
    }
    let s = w.step(WorkerEvent::DeadlineElapsed);
    assert_eq!(numbers(&s.flush), vec![1, 2, 3, 4]);
    assert!(s.reset_deadline);
    assert!(!s.exit);
    assert_eq!(w.pending(), 0);
}

#[test]
fn deadline_on_an_empty_batch_only_resets_the_timer() {
    let mut w = Worker::new(50);
    let s = w.step(WorkerEvent::DeadlineElapsed);
    assert!(s.flush.is_empty());
    assert!(s.reset_deadline);
    assert!(!s.exit);
    assert_eq!(w.phase(), Phase::Accumulating);
}

#[test]
fn shutdown_drains_every_record_exactly_once() {
    let mut w = Worker::new(3);
    let mut written: Vec<u32> = Vec::new();
    let mut flushes = 0;
    for n in 1..=2 {
        let s = w.step(WorkerEvent::Received(numbered(n)));
        written.extend(numbers(&s.flush));
    }
    let s = w.step(WorkerEvent::ShutdownSignal);
    assert!(s.flush.is_empty() && !s.exit && !s.reset_deadline);
    assert_eq!(w.phase(), Phase::Draining);
    for n in 3..=8 {
        let s = w.step(WorkerEvent::Received(numbered(n)));
        assert!(!s.reset_deadline);
        assert!(!s.exit);
        if !s.flush.is_empty() {
            flushes += 1;
            assert_eq!(s.flush.len(), 3);
        }
        written.extend(numbers(&s.flush));
    }
    assert_eq!(flushes, 2);
    let last = w.step(WorkerEvent::Empty);
    assert!(last.exit);
    assert_eq!(numbers(&last.flush), vec![7, 8]);
    written.extend(numbers(&last.flush));
    assert_eq!(written, vec![1, 2, 3, 4, 5, 6, 7, 8]);
    assert_eq!(w.phase(), Phase::Stopped);
    assert_eq!(w.pending(), 0);
}

#[test]
fn disconnect_flushes_what_is_pending_and_stops() {
    let mut w = Worker::new(10);
    w.step(WorkerEvent::Received(numbered(1)));
    w.step(WorkerEvent::Received(numbered(2)));
    let s = w.step(WorkerEvent::Disconnected);
    assert_eq!(numbers(&s.flush), vec![1, 2]);
    assert!(s.exit);
    assert!(!s.reset_deadline);
    assert_eq!(w.phase(), Phase::Stopped);
}

#[test]
fn disconnect_with_nothing_pending_writes_nothing() {
    let mut w = Worker::new(10);
    let s = w.step(WorkerEvent::Disconnected);
    assert!(s.flush.is_empty());
    assert!(s.exit);
}

#[test]
fn draining_ignores_deadline_and_second_signal() {
    let mut w = Worker::new(10);
    w.step(WorkerEvent::Received(numbered(1)));
    w.step(WorkerEvent::ShutdownSignal);
    let d = w.step(WorkerEvent::DeadlineElapsed);
    assert!(d.flush.is_empty() && !d.reset_deadline && !d.exit);
    let s = w.step(WorkerEvent::ShutdownSignal);
    assert!(s.flush.is_empty() && !s.reset_deadline && !s.exit);
    assert_eq!(w.phase(), Phase::Draining);
    assert_eq!(w.pending(), 1);
    let e = w.step(WorkerEvent::Disconnected);
    assert_eq!(numbers(&e.flush), vec![1]);
    assert!(e.exit);
}

#[test]
fn empty_poll_while_accumulating_changes_nothing() {
    let mut w = Worker::new(10);
    w.step(WorkerEvent::Received(numbered(1)));
    let s = w.step(WorkerEvent::Empty);
    assert!(s.flush.is_empty() && !s.reset_deadline && !s.exit);
    assert_eq!(w.phase(), Phase::Accumulating);
    assert_eq!(w.pending(), 1);
}

#[test]
fn stopped_worker_hands_a_late_record_straight_back() {
    let mut w = Worker::new(10);
    w.step(WorkerEvent::Disconnected);
    let s = w.step(WorkerEvent::Received(numbered(9)));
    assert_eq!(numbers(&s.flush), vec![9]);
    assert!(s.exit);
    assert!(!s.reset_deadline);
    assert_eq!(w.pending(), 0);
    let d = w.step(WorkerEvent::DeadlineElapsed);
    assert!(d.flush.is_empty() && d.exit && !d.reset_deadline);
    assert_eq!(w.phase(), Phase::Stopped);
}

#[test]
fn batch_size_zero_flushes_every_record() {
    let mut w = Worker::new(0);
    let s = w.step(WorkerEvent::Received(numbered(1)));
    assert_eq!(numbers(&s.flush), vec![1]);
    assert!(s.reset_deadline);
    let s = w.step(WorkerEvent::Received(numbered(2)));
    assert_eq!(numbers(&s.flush), vec![2]);
}

#[test]
fn batch_size_one_flushes_every_record() {
    let mut w = Worker::new(1);
    let s = w.step(WorkerEvent::Received(numbered(1)));
    assert_eq!(numbers(&s.flush), vec![1]);
    assert_eq!(w.pending(), 0);
}

#[test]
fn batches_come_out_in_arrival_order_across_flushes() {
    let mut w = Worker::new(2);
    let mut written: Vec<u32> = Vec::new();
    for n in 1..=5 {
        let s = w.step(WorkerEvent::Received(numbered(n)));
        written.extend(numbers(&s.flush));
    }
    assert_eq!(written, vec![1, 2, 3, 4]);
    let s = w.step(WorkerEvent::DeadlineElapsed);
    written.extend(numbers(&s.flush));
    assert_eq!(written, vec![1, 2, 3, 4, 5]);
}

#[test]
fn draining_worker_polls_the_channel_until_it_is_empty() {
    let (tx, rx) = crossbeam_channel::bounded::<Record>(8);
    for n in 1..=5 {
        tx.try_send(numbered(n)).unwrap();
    }
    let mut w = Worker::new(2);
    w.step(WorkerEvent::ShutdownSignal);
    let mut written: Vec<Vec<u32>> = Vec::new();
    let mut polls = 0;
    loop {
        let s = w.poll(&rx);
        polls += 1;
        if !s.flush.is_empty() {
            written.push(numbers(&s.flush));
        }
        if s.exit {
            break;
        }
    }
    assert_eq!(polls, 6);
    assert_eq!(written, vec![vec![1, 2], vec![3, 4], vec![5]]);
    assert_eq!(w.phase(), Phase::Stopped);
    assert!(tx.try_send(numbered(6)).is_ok());
}

#[test]
fn poll_while_accumulating_sees_records_and_disconnection() {
    let (tx, rx) = crossbeam_channel::bounded::<Record>(8);
    let mut w = Worker::new(10);
    let idle = w.poll(&rx);
    assert!(idle.flush.is_empty() && !idle.exit && !idle.reset_deadline);
    tx.try_send(numbered(1)).unwrap();
    let got = w.poll(&rx);
    assert!(got.flush.is_empty() && !got.exit);
    assert_eq!(w.pending(), 1);
    drop(tx);
    let end = w.poll(&rx);
    assert_eq!(numbers(&end.flush), vec![1]);
    assert!(end.exit);
}

#[test]
fn poll_outcomes_stand_for_events() {
    assert!(matches!(event_of(RecvOutcome::Empty), WorkerEvent::Empty));
    assert!(matches!(event_of(RecvOutcome::Disconnected), WorkerEvent::Disconnected));
    match event_of(RecvOutcome::Received(numbered(3))) {
        WorkerEvent::Received(r) => assert_eq!(r.timestamp.nanos, 3),
        other => panic!("expected a record, got {:?}", other),
    }
}
