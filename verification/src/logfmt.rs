//! Timestamps and the textual layout of log lines and log file paths.
//!
//! A [`Timestamp`] carries a wall-clock instant as plain calendar fields; the
//! functions here render the date folder, hour folder and per-minute file
//! name of the partitioned log layout, the `[time] address | summary` display
//! line, and the alert lines and alert mail bodies.

use crate::detector::{AlertEvent, AlertModel};
use vstd::prelude::*;

verus! {

/// A wall-clock instant as plain calendar fields, as the log layout needs it.
#[derive(Clone, Copy)]
pub struct Timestamp {
    pub year: u32,
    pub month: u32,
    pub day: u32,
    pub hour: u32,
    pub minute: u32,
    pub second: u32,
}

impl Timestamp {
    /// A plausible calendar instant: the ranges the rendering relies on.
    pub open spec fn wf(&self) -> bool {
        &&& self.year <= 9999
        &&& 1 <= self.month <= 12
        &&& 1 <= self.day <= 31
        &&& self.hour <= 23
        &&& self.minute <= 59
        &&& self.second <= 59
    }
}

/// The decimal digit character for `d`.
pub open spec fn digit_char(d: int) -> char {
    if d == 0 {
        '0'
    } else if d == 1 {
        '1'
    } else if d == 2 {
        '2'
    } else if d == 3 {
        '3'
    } else if d == 4 {
        '4'
    } else if d == 5 {
        '5'
    } else if d == 6 {
        '6'
    } else if d == 7 {
        '7'
    } else if d == 8 {
        '8'
    } else {
        '9'
    }
}

/// `n` rendered as exactly two decimal digits, zero padded.
pub open spec fn spec_two_digits(n: int) -> Seq<char> {
    seq![digit_char(n / 10), digit_char(n % 10)]
}

/// `n` rendered as exactly four decimal digits, zero padded.
pub open spec fn spec_four_digits(n: int) -> Seq<char> {
    seq![
        digit_char(n / 1000),
        digit_char((n / 100) % 10),
        digit_char((n / 10) % 10),
        digit_char(n % 10),
    ]
}

/// The `YYYY-MM-DD` date folder name.
pub open spec fn spec_date(ts: Timestamp) -> Seq<char> {
    spec_four_digits(ts.year as int) + seq!['-'] + spec_two_digits(ts.month as int) + seq!['-']
        + spec_two_digits(ts.day as int)
}

/// The `HH` hour folder name.
pub open spec fn spec_hour(ts: Timestamp) -> Seq<char> {
    spec_two_digits(ts.hour as int)
}

/// The `YYYY-MM-DD_HH-MM` minute stamp inside a log file name.
pub open spec fn spec_minute_stamp(ts: Timestamp) -> Seq<char> {
    spec_date(ts) + seq!['_'] + spec_two_digits(ts.hour as int) + seq!['-'] + spec_two_digits(
        ts.minute as int,
    )
}

/// The `YYYY-MM-DD HH:MM:SS` timestamp at the head of every line.
pub open spec fn spec_timestamp(ts: Timestamp) -> Seq<char> {
    spec_date(ts) + seq![' '] + spec_two_digits(ts.hour as int) + seq![':'] + spec_two_digits(
        ts.minute as int,
    ) + seq![':'] + spec_two_digits(ts.second as int)
}

/// The `ping_<minute stamp>.log` file name.
pub open spec fn spec_file_name(ts: Timestamp) -> Seq<char> {
    "ping_"@ + spec_minute_stamp(ts) + ".log"@
}

/// The `[timestamp] <address> | <result>` display line.
pub open spec fn spec_display_line(ts: Timestamp, address: Seq<char>, result: Seq<char>) -> Seq<
    char,
> {
    "["@ + spec_timestamp(ts) + "] "@ + address + " | "@ + result
}

/// The single decimal digit `d` as a string slice.
fn digit_str(d: u32) -> (s: &'static str)
    requires
        d <= 9,
    ensures
        s@ == seq![digit_char(d as int)],
{
    proof {
        reveal_strlit("0");
        reveal_strlit("1");
        reveal_strlit("2");
        reveal_strlit("3");
        reveal_strlit("4");
        reveal_strlit("5");
        reveal_strlit("6");
        reveal_strlit("7");
        reveal_strlit("8");
        reveal_strlit("9");
    }
    if d == 0 {
        "0"
    } else if d == 1 {
        "1"
    } else if d == 2 {
        "2"
    } else if d == 3 {
        "3"
    } else if d == 4 {
        "4"
    } else if d == 5 {
        "5"
    } else if d == 6 {
        "6"
    } else if d == 7 {
        "7"
    } else if d == 8 {
        "8"
    } else {
        "9"
    }
}

/// `n` as exactly two decimal digits, zero padded.
pub fn two_digits(n: u32) -> (s: String)
    requires
        n <= 99,
    ensures
        s@ == spec_two_digits(n as int),
{
    let mut s = digit_str(n / 10).to_owned();
    s.append(digit_str(n % 10));
    proof {
        assert(s@ =~= spec_two_digits(n as int));
    }
    s
}

/// `n` as exactly four decimal digits, zero padded.
pub fn four_digits(n: u32) -> (s: String)
    requires
        n <= 9999,
    ensures
        s@ == spec_four_digits(n as int),
{
    let mut s = digit_str(n / 1000).to_owned();
    s.append(digit_str((n / 100) % 10));
    s.append(digit_str((n / 10) % 10));
    s.append(digit_str(n % 10));
    proof {
        assert(s@ =~= spec_four_digits(n as int));
    }
    s
}

/// The `YYYY-MM-DD` date folder name for `ts`.
pub fn date_folder(ts: &Timestamp) -> (s: String)
    requires
        ts.wf(),
    ensures
        s@ == spec_date(*ts),
{
    let mut s = four_digits(ts.year);
    s.append("-");
    let m = two_digits(ts.month);
    s.append(m.as_str());
    s.append("-");
    let d = two_digits(ts.day);
    s.append(d.as_str());
    proof {
        reveal_strlit("-");
        assert(s@ =~= spec_date(*ts));
    }
    s
}

/// The `HH` hour folder name for `ts`.
pub fn hour_folder(ts: &Timestamp) -> (s: String)
    requires
        ts.wf(),
    ensures
        s@ == spec_hour(*ts),
{
    two_digits(ts.hour)
}

/// The `ping_<YYYY-MM-DD_HH-MM>.log` file name for `ts`.
pub fn file_name(ts: &Timestamp) -> (s: String)
    requires
        ts.wf(),
    ensures
        s@ == spec_file_name(*ts),
{
    let mut s = "ping_".to_owned();
    let date = date_folder(ts);
    s.append(date.as_str());
    s.append("_");
    let h = two_digits(ts.hour);
    s.append(h.as_str());
    s.append("-");
    let m = two_digits(ts.minute);
    s.append(m.as_str());
    s.append(".log");
    proof {
        reveal_strlit("_");
        reveal_strlit("-");
        assert(s@ =~= spec_file_name(*ts));
    }
    s
}

/// The `YYYY-MM-DD HH:MM:SS` timestamp for `ts`.
pub fn timestamp_text(ts: &Timestamp) -> (s: String)
    requires
        ts.wf(),
    ensures
        s@ == spec_timestamp(*ts),
{
    let mut s = date_folder(ts);
    s.append(" ");
    let h = two_digits(ts.hour);
    s.append(h.as_str());
    s.append(":");
    let m = two_digits(ts.minute);
    s.append(m.as_str());
    s.append(":");
    let sec = two_digits(ts.second);
    s.append(sec.as_str());
    proof {
        reveal_strlit(" ");
        reveal_strlit(":");
        assert(s@ =~= spec_timestamp(*ts));
    }
    s
}

/// The `[timestamp] <address> | <result>` display line for one probe tick.
pub fn display_line(ts: &Timestamp, address: &str, result: &str) -> (s: String)
    requires
        ts.wf(),
    ensures
        s@ == spec_display_line(*ts, address@, result@),
{
    let mut s = "[".to_owned();
    let t = timestamp_text(ts);
    s.append(t.as_str());
    s.append("] ");
    s.append(address);
    s.append(" | ");
    s.append(result);
    proof {
        assert(s@ =~= spec_display_line(*ts, address@, result@));
    }
    s
}

/// The `[timestamp] ALERT | <message>` line written for an alert.
pub open spec fn spec_alert_line(ts: Timestamp, message: Seq<char>) -> Seq<char> {
    "["@ + spec_timestamp(ts) + "] ALERT | "@ + message
}

/// Message announcing a confirmed outage: three straight failures, with the
/// streak's start time.
pub open spec fn spec_outage_message(start: Seq<char>) -> Seq<char> {
    "连续 3 次失败，开始时间 "@ + start
}

/// Message announcing a recovery, carrying the outage's start and end times.
pub open spec fn spec_recovery_message(start: Seq<char>, end: Seq<char>) -> Seq<char> {
    "开始时间: "@ + start + "，恢复时间："@ + end + " 网络出现丢包"@
}

/// HTML body of the recovery mail.
pub open spec fn spec_recovery_html(start: Seq<char>, end: Seq<char>) -> Seq<char> {
    "开始时间: "@ + start + "，<br>恢复时间："@ + end + " <br> 网络出现丢包"@
}

/// The log-line message for an alert event.
pub open spec fn spec_event_message(e: AlertModel) -> Seq<char> {
    match e {
        AlertModel::OutageStart { start } => spec_outage_message(start),
        AlertModel::Recovery { start, end } => spec_recovery_message(start, end),
    }
}

/// The mail body sent for an alert event.
pub open spec fn spec_event_email_body(e: AlertModel) -> Seq<char> {
    match e {
        AlertModel::OutageStart { start } => spec_outage_message(start),
        AlertModel::Recovery { start, end } => spec_recovery_html(start, end),
    }
}

/// The `[timestamp] ALERT | <message>` line for an alert raised at `ts`.
pub fn alert_line(ts: &Timestamp, message: &str) -> (s: String)
    requires
        ts.wf(),
    ensures
        s@ == spec_alert_line(*ts, message@),
{
    let mut s = "[".to_owned();
    let t = timestamp_text(ts);
    s.append(t.as_str());
    s.append("] ALERT | ");
    s.append(message);
    proof {
        assert(s@ =~= spec_alert_line(*ts, message@));
    }
    s
}

/// The log-line message describing `e`.
pub fn event_message(e: &AlertEvent) -> (s: String)
    ensures
        s@ == spec_event_message(e@),
{
    match e {
        AlertEvent::OutageStart { start } => {
            let mut s = "连续 3 次失败，开始时间 ".to_owned();
            s.append(start.as_str());
            proof {
                assert(s@ =~= spec_event_message(e@));
            }
            s
        },
        AlertEvent::Recovery { start, end } => {
            let mut s = "开始时间: ".to_owned();
            s.append(start.as_str());
            s.append("，恢复时间：");
            s.append(end.as_str());
            s.append(" 网络出现丢包");
            proof {
                assert(s@ =~= spec_event_message(e@));
            }
            s
        },
    }
}

/// The mail body sent for `e`: plain text for an outage start, the HTML
/// variant for a recovery.
pub fn event_email_body(e: &AlertEvent) -> (s: String)
    ensures
        s@ == spec_event_email_body(e@),
{
    match e {
        AlertEvent::OutageStart { start } => {
            let mut s = "连续 3 次失败，开始时间 ".to_owned();
            s.append(start.as_str());
            proof {
                assert(s@ =~= spec_event_email_body(e@));
            }
            s
        },
        AlertEvent::Recovery { start, end } => {
            let mut s = "开始时间: ".to_owned();
            s.append(start.as_str());
            s.append("，<br>恢复时间：");
            s.append(end.as_str());
            s.append(" <br> 网络出现丢包");
            proof {
                assert(s@ =~= spec_event_email_body(e@));
            }
            s
        },
    }
}

/// The `error: <description>` form under which a failed probe's summary
/// appears in the log line.
pub open spec fn spec_error_text(err: Seq<char>) -> Seq<char> {
    "error: "@ + err
}

/// Render a probe result as the text of its log line: the summary itself on
/// success, `error: <description>` on failure.
pub fn result_text(r: &Result<String, String>) -> (s: String)
    ensures
        r is Ok ==> s@ == r->Ok_0@,
        r is Err ==> s@ == spec_error_text(r->Err_0@),
{
    match r {
        Ok(line) => line.clone(),
        Err(err) => {
            let mut s = "error: ".to_owned();
            s.append(err.as_str());
            proof {
                assert(s@ =~= spec_error_text(err@));
            }
            s
        },
    }
}

} // verus!
