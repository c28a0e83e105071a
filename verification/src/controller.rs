//! Lifecycle of a monitoring run.
//!
//! At most one run is active at a time.  Starting validates the address,
//! resets the log tail, resolves the log base directory and registers the
//! run; the caller then spawns the worker.  Stopping deregisters the run;
//! the caller then signals and joins the worker.

use crate::classify::{is_blank, trim, trim_text};
use crate::logbuf::{entries_model, LogBuffer, LogEntry, LogEntryModel};
use vstd::prelude::*;

verus! {

/// The monitor's shared state: the active run's target address, if a run is
/// active, and the live log tail.
pub struct PingState {
    pub running: Option<String>,
    pub logs: LogBuffer,
}

/// The active run's address, as a sequence.
pub open spec fn running_view(st: &PingState) -> Option<Seq<char>> {
    match st.running {
        Some(a) => Some(a@),
        None => None,
    }
}

/// View of an optional directory override.
pub open spec fn opt_dir_view(o: Option<String>) -> Option<Seq<char>> {
    match o {
        Some(d) => Some(d@),
        None => None,
    }
}

/// The log base directory in force: the configured override when present,
/// else the platform default handed in by the caller.
pub open spec fn spec_resolved_dir(override_dir: Option<Seq<char>>, default_dir: Seq<char>) -> Seq<
    char,
> {
    match override_dir {
        Some(d) => d,
        None => default_dir,
    }
}

impl Default for PingState {
    /// Fresh state, as [`PingState::new`] builds it.
    fn default() -> (r: PingState)
        ensures
            running_view(&r) is None,
            r.logs.wf(),
            r.logs.next_seq == 1,
            entries_model(&r.logs) == Seq::<LogEntryModel>::empty(),
    {
        PingState::new()
    }
}

impl PingState {
    /// Fresh state: no run active, an empty log tail starting at sequence 1.
    pub fn new() -> (r: PingState)
        ensures
            running_view(&r) is None,
            r.logs.wf(),
            r.logs.next_seq == 1,
            entries_model(&r.logs) == Seq::<LogEntryModel>::empty(),
    {
        PingState { running: None, logs: LogBuffer::new() }
    }

    /// Start monitoring `address`.
    ///
    /// Fails, leaving everything untouched, exactly when the address is
    /// blank after trimming or a run is already active.  On success the log
    /// tail is reset (sequence numbers restart at 1), the trimmed address is
    /// registered as the active run, and the resolved log base directory —
    /// the configured override if present, else `default_dir` — is returned.
    pub fn start_ping(
        &mut self,
        address: &str,
        override_dir: &Option<String>,
        default_dir: &str,
    ) -> (r: Result<String, String>)
        ensures
            r is Err <==> (trim(address@).len() == 0 || running_view(old(self)) is Some),
            r is Err ==> *final(self) == *old(self),
            r is Err ==> r->Err_0@ == if trim(address@).len() == 0 {
                "Address cannot be empty"@
            } else {
                "Ping is already running"@
            },
            r is Ok ==> {
                &&& running_view(final(self)) == Some(trim(address@))
                &&& final(self).logs.wf()
                &&& final(self).logs.next_seq == 1
                &&& entries_model(&final(self).logs) == Seq::<LogEntryModel>::empty()
                &&& r->Ok_0@ == spec_resolved_dir(opt_dir_view(*override_dir), default_dir@)
            },
    {
        if is_blank(address) {
            return Err("Address cannot be empty".to_owned());
        }
        if self.running.is_some() {
            return Err("Ping is already running".to_owned());
        }
        let trimmed = trim_text(address);
        self.logs.reset();
        self.running = Some(trimmed);
        let resolved = match override_dir {
            Some(d) => d.clone(),
            None => default_dir.to_owned(),
        };
        Ok(resolved)
    }

    /// Stop the active run.
    ///
    /// Fails, leaving everything untouched, exactly when no run is active.
    /// On success the run is deregistered; the log tail keeps its entries
    /// until the next start.
    pub fn stop_ping(&mut self) -> (r: Result<(), String>)
        ensures
            r is Err <==> running_view(old(self)) is None,
            r is Err ==> *final(self) == *old(self),
            r is Err ==> r->Err_0@ == "Ping is not running"@,
            r is Ok ==> running_view(final(self)) is None && final(self).logs == old(self).logs,
    {
        if self.running.is_none() {
            return Err("Ping is not running".to_owned());
        }
        self.running = None;
        Ok(())
    }

    /// A snapshot of the live log tail, in insertion order.
    pub fn get_recent_logs(&self) -> (r: Vec<LogEntry>)
        ensures
            r@.map_values(|e: LogEntry| e@) == entries_model(&self.logs),
    {
        self.logs.snapshot()
    }
}

} // verus!
