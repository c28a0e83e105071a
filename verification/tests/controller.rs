use ping_monitor::controller::PingState;
use ping_monitor::logbuf::push_log;

#[test]
fn blank_address_is_rejected_before_any_work() {
    let mut st = PingState::new();
    let r = st.start_ping("   ", &None, "/var/log/ping");
    assert_eq!(r.unwrap_err(), "Address cannot be empty");
    assert!(st.running.is_none());
    assert_eq!(st.stop_ping().unwrap_err(), "Ping is not running");
}

#[test]
fn second_start_fails_and_leaves_first_run_untouched() {
    let mut st = PingState::new();
    let dir = st.start_ping("host", &None, "/var/log/ping").unwrap();
    assert_eq!(dir, "/var/log/ping");
    assert_eq!(st.running.as_deref(), Some("host"));

    push_log(&mut st.logs, "tick 1".to_string());
    push_log(&mut st.logs, "tick 2".to_string());

    let r = st.start_ping("host", &None, "/var/log/ping");
    assert_eq!(r.unwrap_err(), "Ping is already running");
    let snap = st.get_recent_logs();
    assert_eq!(snap.len(), 2);
    assert_eq!(snap[0].seq, 1);
    assert_eq!(snap[1].line, "tick 2");

    st.stop_ping().unwrap();
    assert!(st.running.is_none());
    // The tail survives the stop and is reset only by the next start.
    assert_eq!(st.get_recent_logs().len(), 2);

    st.start_ping("otherhost", &None, "/var/log/ping").unwrap();
    assert_eq!(st.get_recent_logs().len(), 0);
    assert_eq!(push_log(&mut st.logs, "fresh".to_string()), 1);
}

#[test]
fn address_is_trimmed_on_start() {
    let mut st = PingState::new();
    st.start_ping("  example.com \t", &None, "/logs").unwrap();
    assert_eq!(st.running.as_deref(), Some("example.com"));
}

#[test]
fn configured_directory_overrides_the_default() {
    let mut st = PingState::new();
    let dir = st.start_ping("host", &Some("/custom/logs".to_string()), "/default").unwrap();
    assert_eq!(dir, "/custom/logs");
}

#[test]
fn stop_without_run_fails() {
    let mut st = PingState::default();
    assert_eq!(st.stop_ping().unwrap_err(), "Ping is not running");
}
