use ping_monitor::detector::{AlertEvent, OutageState};

fn fail(st: &mut OutageState, now: &str) -> Option<AlertEvent> {
    st.step(false, now)
}

fn succeed(st: &mut OutageState, now: &str) -> Option<AlertEvent> {
    st.step(true, now)
}

#[test]
fn outage_confirmed_at_third_failure_and_recovery() {
    let mut st = OutageState::new();
    assert!(fail(&mut st, "2024-05-01 10:00:00").is_none());
    assert_eq!(st.fail_count, 1);
    assert!(fail(&mut st, "2024-05-01 10:00:01").is_none());
    assert_eq!(st.fail_count, 2);
    let ev = fail(&mut st, "2024-05-01 10:00:02");
    match ev {
        Some(AlertEvent::OutageStart { start }) => assert_eq!(start, "2024-05-01 10:00:00"),
        _ => panic!("expected an outage-start event at the third failure"),
    }
    assert_eq!(st.fail_count, 3);
    assert!(st.outage_start.is_some());

    let ev = succeed(&mut st, "2024-05-01 10:00:05");
    match ev {
        Some(AlertEvent::Recovery { start, end }) => {
            assert_eq!(start, "2024-05-01 10:00:00");
            assert_eq!(end, "2024-05-01 10:00:05");
        },
        _ => panic!("expected a recovery event at the first success"),
    }
    assert_eq!(st.fail_count, 0);
    assert!(st.first_fail.is_none());
    assert!(st.outage_start.is_none());
}

#[test]
fn one_event_per_streak_regardless_of_length() {
    let mut st = OutageState::new();
    let mut starts = 0;
    let mut recoveries = 0;
    for i in 0..7 {
        let now = format!("2024-05-01 10:00:{:02}", i);
        if let Some(ev) = st.step(false, &now) {
            match ev {
                AlertEvent::OutageStart { .. } => starts += 1,
                AlertEvent::Recovery { .. } => recoveries += 1,
            }
        }
    }
    assert_eq!(starts, 1);
    assert_eq!(recoveries, 0);
    if let Some(ev) = st.step(true, "2024-05-01 10:00:07") {
        match ev {
            AlertEvent::Recovery { .. } => recoveries += 1,
            AlertEvent::OutageStart { .. } => starts += 1,
        }
    }
    assert_eq!(starts, 1);
    assert_eq!(recoveries, 1);
}

#[test]
fn short_streak_emits_nothing() {
    let mut st = OutageState::new();
    assert!(st.step(false, "t1").is_none());
    assert!(st.step(false, "t2").is_none());
    assert!(st.step(true, "t3").is_none());
    assert_eq!(st.fail_count, 0);
    assert!(st.first_fail.is_none());
}

#[test]
fn two_streaks_two_outage_starts() {
    let mut st = OutageState::new();
    for t in ["a", "b", "c"] {
        st.step(false, t);
    }
    assert!(st.outage_start.is_some());
    st.step(true, "d");
    assert!(st.outage_start.is_none());
    st.step(false, "e");
    st.step(false, "f");
    let ev = st.step(false, "g");
    match ev {
        Some(AlertEvent::OutageStart { start }) => assert_eq!(start, "e"),
        _ => panic!("expected a second outage-start for the second streak"),
    }
}

#[test]
fn fail_count_monotone_within_streak_and_reset_on_success() {
    let mut st = OutageState::new();
    let mut last = 0;
    for i in 0..10 {
        let now = format!("2024-05-01 11:00:{:02}", i);
        st.step(false, &now);
        assert!(st.fail_count >= last);
        last = st.fail_count;
    }
    st.step(true, "2024-05-01 11:00:10");
    assert_eq!(st.fail_count, 0);
}
