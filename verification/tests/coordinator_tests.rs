use regressions::coordinator::{Coordinator, TransferOutcome};
use regressions::files::FilesList;
use regressions::transfer::Transfer;

fn entry(checksum: &str, name: &str) -> FilesList {
    FilesList::new(checksum.to_string(), name.to_string())
}

#[test]
fn transfer_accumulates_served_bytes() {
    let mut t = Transfer::new(10);
    t.on_chunk(&[1, 2]);
    t.on_chunk(&[3]);
    t.on_chunk(&[]);
    t.on_chunk(&[4, 5]);
    assert_eq!(t.data, vec![1, 2, 3, 4, 5]);
    assert_eq!(t.progress.bytes_transferred, 5);
    assert_eq!(t.progress.total_bytes, 10);
}

#[test]
fn progress_saturates_at_announced_total() {
    let mut t = Transfer::new(3);
    t.on_chunk(&[9, 9, 9, 9, 9]);
    assert_eq!(t.progress.bytes_transferred, 3);
    assert_eq!(t.data.len(), 5);
}

#[test]
fn pool_bound_is_kept() {
    let mut c = Coordinator::new(2, 4);
    assert!(c.can_accept());
    c.enqueue(entry("c1", "one.raw"));
    c.enqueue(entry("c2", "two.raw"));
    c.enqueue(entry("c3", "three.raw"));

    assert_eq!(c.worker_start(), Some(0));
    assert_eq!(c.worker_start(), Some(1));
    // Both workers busy: the third entry stays queued.
    assert_eq!(c.worker_start(), None);
    assert!(c.active.len() <= 2);

    c.worker_finish(0, TransferOutcome::Success);
    assert_eq!(c.worker_start(), Some(1));
    assert!(c.active.len() <= 2);
}

#[test]
fn queue_capacity_applies_backpressure() {
    let mut c = Coordinator::new(1, 2);
    c.enqueue(entry("c1", "one.raw"));
    c.enqueue(entry("c2", "two.raw"));
    // The handoff queue is full: the producer must wait.
    assert!(!c.can_accept());
    assert_eq!(c.worker_start(), Some(0));
    assert!(c.can_accept());
}

#[test]
fn failed_transfer_does_not_abort_siblings() {
    let mut c = Coordinator::new(2, 8);
    c.enqueue(entry("c1", "one.raw"));
    c.enqueue(entry("c2", "two.raw"));
    c.enqueue(entry("c3", "three.raw"));
    c.close();

    let a = c.worker_start().unwrap();
    let b = c.worker_start().unwrap();
    assert_eq!(c.active_entry(a).checksum().as_str(), "c1");
    assert_eq!(c.active_entry(b).checksum().as_str(), "c2");

    // The first transfer fails after partial bytes; its entry alone records it.
    let mut partial = Transfer::new(100);
    partial.on_chunk(&[0, 1, 2]);
    c.worker_finish(a, TransferOutcome::Failed("connection reset".to_string()));

    // Siblings keep going and complete.
    let rest = c.worker_start().unwrap();
    assert_eq!(c.active_entry(rest).checksum().as_str(), "c3");
    c.worker_finish(0, TransferOutcome::Success);
    c.worker_finish(0, TransferOutcome::Success);

    assert!(c.is_done());
    assert_eq!(c.outcomes.len(), 3);
    assert_eq!(c.outcomes[0].entry.checksum().as_str(), "c1");
    match &c.outcomes[0].outcome {
        TransferOutcome::Failed(reason) => assert_eq!(reason.as_str(), "connection reset"),
        TransferOutcome::Success => panic!("the failed entry must be reported distinctly"),
    }
    assert!(matches!(c.outcomes[1].outcome, TransferOutcome::Success));
    assert!(matches!(c.outcomes[2].outcome, TransferOutcome::Success));
}

#[test]
fn backoff_doubles_and_saturates() {
    let policy = regressions::retry::RetryPolicy {
        max_attempts: 3,
        base_delay_ms: 100,
        cap_delay_ms: 1600,
    };
    assert_eq!(policy.backoff_delay_ms(0), 100);
    assert_eq!(policy.backoff_delay_ms(1), 200);
    assert_eq!(policy.backoff_delay_ms(2), 400);
    assert_eq!(policy.backoff_delay_ms(3), 800);
    assert_eq!(policy.backoff_delay_ms(4), 1600);
    assert_eq!(policy.backoff_delay_ms(5), 1600);
    assert!(policy.should_retry(0));
    assert!(policy.should_retry(2));
    assert!(!policy.should_retry(3));
}
