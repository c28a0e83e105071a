//! One probe tick, decided end to end.
//!
//! Given the classified probe result and the tick's timestamp, [`tick`]
//! renders the log locations and the display line, mirrors the line into the
//! buffer, advances the outage detector and, on an alert, renders the alert
//! line and the alert mail body.  The caller performs the file writes, the
//! live notification and the mail send around it; on a successful file write
//! of the alert line it mirrors that line too, with [`push_log`].

use crate::detector::{event_view, spec_step, AlertEvent, OutageState};
use crate::logbuf::{entries_model, push_log, LogBuffer, LogEntryModel};
use crate::logfmt::{
    alert_line, date_folder, display_line, event_email_body, event_message, file_name,
    hour_folder, result_text, spec_alert_line, spec_date, spec_display_line, spec_error_text,
    spec_event_email_body, spec_event_message, spec_file_name, spec_hour, spec_timestamp,
    timestamp_text, Timestamp,
};
use vstd::prelude::*;

verus! {

/// The alert texts of a tick that confirmed an outage or recovered from one.
pub struct AlertOutput {
    pub line: String,
    pub email_body: String,
}

/// Everything one tick decides: where to log, the display line and its
/// sequence number, and the alert texts if an alert fired.
pub struct TickOutput {
    pub date_folder: String,
    pub hour_folder: String,
    pub file_name: String,
    pub line: String,
    pub seq: u64,
    pub alert: Option<AlertOutput>,
}

/// The text under which a probe result appears in its log line.
pub open spec fn spec_result_text(probe: Result<Seq<char>, Seq<char>>) -> Seq<char> {
    match probe {
        Ok(s) => s,
        Err(e) => spec_error_text(e),
    }
}

/// View of a probe result.
pub open spec fn probe_view(probe: &Result<String, String>) -> Result<Seq<char>, Seq<char>> {
    match probe {
        Ok(s) => Ok(s@),
        Err(e) => Err(e@),
    }
}

/// Decide one probe tick: render the log locations and the display line,
/// mirror the line into the buffer, advance the detector, and render the
/// alert texts when the detector fires.
pub fn tick(
    det: &mut OutageState,
    logs: &mut LogBuffer,
    address: &str,
    probe: &Result<String, String>,
    ts: &Timestamp,
) -> (out: TickOutput)
    requires
        ts.wf(),
        old(logs).wf(),
    ensures
        final(logs).wf(),
        out.date_folder@ == spec_date(*ts),
        out.hour_folder@ == spec_hour(*ts),
        out.file_name@ == spec_file_name(*ts),
        out.line@ == spec_display_line(*ts, address@, spec_result_text(probe_view(probe))),
        out.seq == old(logs).next_seq,
        final(logs).next_seq == old(logs).next_seq.saturating_add(1),
        entries_model(final(logs)) == ({
            let grown = entries_model(old(logs)).push(
                LogEntryModel { seq: out.seq, line: out.line@ },
            );
            if grown.len() > 100 {
                grown.subrange(1, grown.len() as int)
            } else {
                grown
            }
        }),
        final(det)@ == spec_step(old(det)@, probe is Ok, spec_timestamp(*ts)).0,
        ({
            let ev = spec_step(old(det)@, probe is Ok, spec_timestamp(*ts)).1;
            match out.alert {
                Some(a) => ev is Some && a.line@ == spec_alert_line(
                    *ts,
                    spec_event_message(ev->0),
                ) && a.email_body@ == spec_event_email_body(ev->0),
                None => ev is None,
            }
        }),
{
    let text = result_text(probe);
    let line = display_line(ts, address, text.as_str());
    let seq = push_log(logs, line.clone());
    let now = timestamp_text(ts);
    let ev: Option<AlertEvent> = det.step(probe.is_ok(), now.as_str());
    let alert = match &ev {
        Some(e) => {
            let msg = event_message(e);
            Some(AlertOutput { line: alert_line(ts, msg.as_str()), email_body: event_email_body(e) })
        },
        None => None,
    };
    proof {
        assert(event_view(ev) == spec_step(old(det)@, probe is Ok, spec_timestamp(*ts)).1);
    }
    TickOutput {
        date_folder: date_folder(ts),
        hour_folder: hour_folder(ts),
        file_name: file_name(ts),
        line,
        seq,
        alert,
    }
}

} // verus!
