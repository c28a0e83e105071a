use ping_monitor::classify::{
    is_header_line, ping_once, select_error_line, select_non_header_line, select_success_line,
    trim_text, ProbeCapture,
};

fn capture(success: bool, stdout: &str, stderr: &str) -> ProbeCapture {
    ProbeCapture { success, stdout: stdout.to_string(), stderr: stderr.to_string() }
}

#[test]
fn success_summary_prefers_reply_line() {
    let out = "Pinging testhost [10.0.0.1] with 32 bytes of data:\nReply from 10.0.0.1: bytes=32 time=11ms TTL=56\n";
    let r = ping_once("testhost", &capture(true, out, ""));
    assert_eq!(r, Ok("Reply from 10.0.0.1: bytes=32 time=11ms TTL=56".to_string()));
}

#[test]
fn failure_summary_prefers_error_line() {
    let out = "Pinging testhost [10.0.0.1] with 32 bytes of data:\nRequest timed out.\n";
    let r = ping_once("testhost", &capture(false, out, ""));
    assert_eq!(r, Err("Request timed out.".to_string()));
}

#[test]
fn failure_uses_stderr_when_not_blank() {
    let r = ping_once(
        "nowhere.invalid",
        &capture(false, "ignored stdout", "ping: nowhere.invalid: Name or service not known\n"),
    );
    assert_eq!(r, Err("ping: nowhere.invalid: Name or service not known".to_string()));
}

#[test]
fn failure_falls_back_to_stdout_when_stderr_blank() {
    let r = ping_once("testhost", &capture(false, "Destination host unreachable.\n", "   \n"));
    assert_eq!(r, Err("Destination host unreachable.".to_string()));
}

#[test]
fn banner_is_used_only_as_last_resort() {
    let out = "Pinging testhost [10.0.0.1] with 32 bytes of data:\n";
    let r = ping_once("testhost", &capture(true, out, ""));
    assert_eq!(r, Ok("Pinging testhost [10.0.0.1] with 32 bytes of data:".to_string()));
}

#[test]
fn empty_output_synthesizes_summary() {
    assert_eq!(ping_once("testhost", &capture(true, "", "")), Ok("ping testhost ok".to_string()));
    assert_eq!(
        ping_once("testhost", &capture(false, "\n  \n", "")),
        Err("ping testhost failed".to_string())
    );
}

#[test]
fn summary_lines_are_trimmed() {
    let out = "  Reply from 10.0.0.1: time=5ms  \r\n";
    let r = ping_once("testhost", &capture(true, out, ""));
    assert_eq!(r, Ok("Reply from 10.0.0.1: time=5ms".to_string()));
}

#[test]
fn classification_is_repeatable_on_same_text() {
    let out = "noise line\nReply from 10.0.0.1: time=5ms\n";
    let first = ping_once("testhost", &capture(true, out, ""));
    let again = ping_once("testhost", &capture(true, out, ""));
    assert_eq!(first, again);
    let summary = first.unwrap();
    let re = ping_once("testhost", &capture(true, &summary, ""));
    assert_eq!(re, Ok(summary));
}

#[test]
fn localized_markers_are_recognized() {
    let lines = vec!["正在 Ping testhost".to_string(), "请求超时。".to_string()];
    assert_eq!(select_error_line(&lines), Some("请求超时。".to_string()));
    assert_eq!(select_non_header_line(&lines), Some("请求超时。".to_string()));
    assert!(is_header_line("正在 Ping testhost"));
    assert!(is_header_line("PING example.com (93.184.216.34)"));
    assert!(!is_header_line("Reply from 10.0.0.1"));
}

#[test]
fn success_markers_are_case_insensitive_where_the_tool_varies() {
    let lines = vec!["header only: PINGING".to_string(), "64 bytes from 10.0.0.1: TIME=3ms".to_string()];
    assert_eq!(select_success_line(&lines), Some("64 bytes from 10.0.0.1: TIME=3ms".to_string()));
}

#[test]
fn select_success_line_none_without_markers() {
    let lines = vec!["nothing of note".to_string()];
    assert_eq!(select_success_line(&lines), None);
}

#[test]
fn trim_text_removes_surrounding_whitespace_only() {
    assert_eq!(trim_text("  a b \t\r\n"), "a b".to_string());
    assert_eq!(trim_text("   "), "".to_string());
    assert_eq!(trim_text("plain"), "plain".to_string());
}
