use ping_monitor::logbuf::{push_log, LogBuffer};

#[test]
fn sequence_numbers_start_at_one_and_increase() {
    let mut logs = LogBuffer::new();
    assert_eq!(push_log(&mut logs, "first".to_string()), 1);
    assert_eq!(push_log(&mut logs, "second".to_string()), 2);
    assert_eq!(push_log(&mut logs, "third".to_string()), 3);
    let snap = logs.snapshot();
    assert_eq!(snap.len(), 3);
    assert_eq!(snap[0].seq, 1);
    assert_eq!(snap[0].line, "first");
    assert_eq!(snap[2].seq, 3);
    assert_eq!(snap[2].line, "third");
}

#[test]
fn capacity_is_one_hundred_with_oldest_evicted() {
    let mut logs = LogBuffer::new();
    for i in 1..=105u64 {
        let seq = push_log(&mut logs, format!("line {}", i));
        assert_eq!(seq, i);
    }
    let snap = logs.snapshot();
    assert_eq!(snap.len(), 100);
    assert_eq!(snap[0].seq, 6);
    assert_eq!(snap[0].line, "line 6");
    assert_eq!(snap[99].seq, 105);
    for w in snap.windows(2) {
        assert!(w[0].seq < w[1].seq);
    }
}

#[test]
fn reset_clears_entries_and_restarts_sequence() {
    let mut logs = LogBuffer::new();
    push_log(&mut logs, "a".to_string());
    push_log(&mut logs, "b".to_string());
    logs.reset();
    assert_eq!(logs.snapshot().len(), 0);
    assert_eq!(push_log(&mut logs, "fresh".to_string()), 1);
}
