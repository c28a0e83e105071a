use ping_monitor::detector::{AlertEvent, OutageState};
use ping_monitor::monitor::tick;
use ping_monitor::logbuf::{push_log, LogBuffer};
use ping_monitor::logfmt::{alert_line, display_line, event_message, timestamp_text, Timestamp};

fn at(second: u32) -> Timestamp {
    Timestamp { year: 2024, month: 5, day: 1, hour: 10, minute: 0, second }
}

/// Three consecutive failures starting at 10:00:00 confirm an outage at the
/// third tick and write an alert line naming the streak's start; the success
/// at 10:00:05 recovers, naming both times.
#[test]
fn three_failures_then_recovery_with_alert_lines() {
    let mut det = OutageState::new();
    let mut logs = LogBuffer::new();

    let mut outage_event = None;
    for s in [0u32, 1, 2] {
        let ts = at(s);
        let now = timestamp_text(&ts);
        let line = display_line(&ts, "host", "error: Request timed out.");
        push_log(&mut logs, line);
        if let Some(ev) = det.step(false, &now) {
            let msg = event_message(&ev);
            push_log(&mut logs, alert_line(&ts, &msg));
            outage_event = Some(ev);
        }
    }

    match &outage_event {
        Some(AlertEvent::OutageStart { start }) => assert_eq!(start, "2024-05-01 10:00:00"),
        _ => panic!("the third failure must confirm the outage"),
    }
    let snap = logs.snapshot();
    assert_eq!(snap.len(), 4);
    assert_eq!(snap[3].line, "[2024-05-01 10:00:02] ALERT | 连续 3 次失败，开始时间 2024-05-01 10:00:00");

    let ts = at(5);
    let now = timestamp_text(&ts);
    let ev = det.step(true, &now).expect("the first success after an outage must recover");
    match &ev {
        AlertEvent::Recovery { start, end } => {
            assert_eq!(start, "2024-05-01 10:00:00");
            assert_eq!(end, "2024-05-01 10:00:05");
        },
        _ => panic!("expected a recovery event"),
    }
    assert_eq!(det.fail_count, 0);
    push_log(&mut logs, alert_line(&ts, &event_message(&ev)));
    let snap = logs.snapshot();
    assert_eq!(
        snap[4].line,
        "[2024-05-01 10:00:05] ALERT | 开始时间: 2024-05-01 10:00:00，恢复时间：2024-05-01 10:00:05 网络出现丢包"
    );
}

/// The same scenario driven through the per-tick decision function.
#[test]
fn tick_decides_lines_paths_and_alerts() {
    let mut det = OutageState::new();
    let mut logs = LogBuffer::new();
    let probe: Result<String, String> = Err("Request timed out.".to_string());

    for s in [0u32, 1] {
        let out = tick(&mut det, &mut logs, "host", &probe, &at(s));
        assert!(out.alert.is_none());
        assert_eq!(out.seq, (s + 1) as u64);
    }
    let out = tick(&mut det, &mut logs, "host", &probe, &at(2));
    assert_eq!(out.date_folder, "2024-05-01");
    assert_eq!(out.hour_folder, "10");
    assert_eq!(out.file_name, "ping_2024-05-01_10-00.log");
    assert_eq!(out.line, "[2024-05-01 10:00:02] host | error: Request timed out.");
    assert_eq!(out.seq, 3);
    let alert = out.alert.expect("third failure must raise the alert");
    assert_eq!(alert.line, "[2024-05-01 10:00:02] ALERT | 连续 3 次失败，开始时间 2024-05-01 10:00:00");
    assert_eq!(alert.email_body, "连续 3 次失败，开始时间 2024-05-01 10:00:00");

    let out = tick(&mut det, &mut logs, "host", &Ok("Reply".to_string()), &at(5));
    assert_eq!(out.line, "[2024-05-01 10:00:05] host | Reply");
    let alert = out.alert.expect("success after outage must raise the recovery alert");
    assert_eq!(
        alert.email_body,
        "开始时间: 2024-05-01 10:00:00，<br>恢复时间：2024-05-01 10:00:05 <br> 网络出现丢包"
    );
}
