use ping_monitor::detector::AlertEvent;
use ping_monitor::logfmt::{
    alert_line, date_folder, display_line, event_email_body, event_message, file_name,
    hour_folder, result_text, timestamp_text, Timestamp,
};

fn ts() -> Timestamp {
    Timestamp { year: 2024, month: 5, day: 1, hour: 9, minute: 3, second: 7 }
}

#[test]
fn timestamp_and_folders_are_zero_padded() {
    let t = ts();
    assert_eq!(timestamp_text(&t), "2024-05-01 09:03:07");
    assert_eq!(date_folder(&t), "2024-05-01");
    assert_eq!(hour_folder(&t), "09");
    assert_eq!(file_name(&t), "ping_2024-05-01_09-03.log");
}

#[test]
fn display_line_layout() {
    let line = display_line(&ts(), "example.com", "Reply from 10.0.0.1: time=5ms");
    assert_eq!(line, "[2024-05-01 09:03:07] example.com | Reply from 10.0.0.1: time=5ms");
}

#[test]
fn alert_line_layout_for_outage_start() {
    let ev = AlertEvent::OutageStart { start: "2024-05-01 09:03:05".to_string() };
    let msg = event_message(&ev);
    assert_eq!(msg, "连续 3 次失败，开始时间 2024-05-01 09:03:05");
    let line = alert_line(&ts(), &msg);
    assert_eq!(line, "[2024-05-01 09:03:07] ALERT | 连续 3 次失败，开始时间 2024-05-01 09:03:05");
}

#[test]
fn recovery_message_and_mail_body() {
    let ev = AlertEvent::Recovery {
        start: "2024-05-01 09:00:00".to_string(),
        end: "2024-05-01 09:03:07".to_string(),
    };
    assert_eq!(
        event_message(&ev),
        "开始时间: 2024-05-01 09:00:00，恢复时间：2024-05-01 09:03:07 网络出现丢包"
    );
    assert_eq!(
        event_email_body(&ev),
        "开始时间: 2024-05-01 09:00:00，<br>恢复时间：2024-05-01 09:03:07 <br> 网络出现丢包"
    );
}

#[test]
fn result_text_marks_failures() {
    assert_eq!(result_text(&Ok("Reply".to_string())), "Reply");
    assert_eq!(result_text(&Err("Request timed out.".to_string())), "error: Request timed out.");
}
