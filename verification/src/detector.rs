//! Outage-detection state machine.
//!
//! One probe tick feeds one outcome (success or failure) and the tick's
//! timestamp into [`step`].  Three consecutive failures confirm an outage and
//! emit a single outage-start event; the first success after a confirmed
//! outage emits a single recovery event.  Alerts are edge-triggered: further
//! failures inside a confirmed outage emit nothing.

use vstd::prelude::*;

verus! {

/// Per-run detector state: consecutive failure count (saturating), the
/// timestamp of the first failure of the current streak, and the timestamp
/// marking a confirmed outage start (present exactly while in the outage
/// state).
pub struct OutageState {
    pub fail_count: u32,
    pub first_fail: Option<String>,
    pub outage_start: Option<String>,
}

/// Mathematical model of [`OutageState`]: the same fields with timestamps as
/// character sequences.
pub struct OutageModel {
    pub fail_count: u32,
    pub first_fail: Option<Seq<char>>,
    pub outage_start: Option<Seq<char>>,
}

impl View for OutageState {
    type V = OutageModel;

    open spec fn view(&self) -> OutageModel {
        OutageModel {
            fail_count: self.fail_count,
            first_fail: match self.first_fail {
                Some(s) => Some(s@),
                None => None,
            },
            outage_start: match self.outage_start {
                Some(s) => Some(s@),
                None => None,
            },
        }
    }
}

/// Alert emitted by a tick: an outage has just been confirmed, or the first
/// success after a confirmed outage has just arrived.
pub enum AlertEvent {
    OutageStart { start: String },
    Recovery { start: String, end: String },
}

/// Mathematical model of [`AlertEvent`].
pub enum AlertModel {
    OutageStart { start: Seq<char> },
    Recovery { start: Seq<char>, end: Seq<char> },
}

impl View for AlertEvent {
    type V = AlertModel;

    open spec fn view(&self) -> AlertModel {
        match self {
            AlertEvent::OutageStart { start } => AlertModel::OutageStart { start: start@ },
            AlertEvent::Recovery { start, end } => AlertModel::Recovery {
                start: start@,
                end: end@,
            },
        }
    }
}

/// View of an optional event.
pub open spec fn event_view(ev: Option<AlertEvent>) -> Option<AlertModel> {
    match ev {
        Some(e) => Some(e@),
        None => None,
    }
}

/// The detector's initial state: healthy, no streak, no outage recorded.
pub open spec fn initial_model() -> OutageModel {
    OutageModel { fail_count: 0, first_fail: None, outage_start: None }
}

/// One transition of the detector on a probe outcome `ok` observed at time
/// `now`: the successor state and the event emitted, if any.
pub open spec fn spec_step(m: OutageModel, ok: bool, now: Seq<char>) -> (OutageModel, Option<
    AlertModel,
>) {
    if ok {
        let next = OutageModel { fail_count: 0, first_fail: None, outage_start: None };
        match m.outage_start {
            Some(start) => (next, Some(AlertModel::Recovery { start, end: now })),
            None => (next, None),
        }
    } else {
        let fc = if m.fail_count + 1 > u32::MAX { u32::MAX } else { (m.fail_count + 1) as u32 };
        let ff = if fc == 1 { Some(now) } else { m.first_fail };
        if fc == 3 && m.outage_start is None {
            let start = match ff {
                Some(s) => s,
                None => now,
            };
            (
                OutageModel { fail_count: fc, first_fail: ff, outage_start: Some(start) },
                Some(AlertModel::OutageStart { start }),
            )
        } else {
            (OutageModel { fail_count: fc, first_fail: ff, outage_start: m.outage_start }, None)
        }
    }
}

impl OutageState {
    /// A fresh detector: healthy, nothing recorded.
    pub fn new() -> (r: OutageState)
        ensures
            r@ == initial_model(),
    {
        OutageState { fail_count: 0, first_fail: None, outage_start: None }
    }

    /// Consume one probe outcome at timestamp `now`.
    ///
    /// The successor state and the emitted event are exactly those of
    /// [`spec_step`].  The failure count never decreases within a failure
    /// streak and resets to exactly zero on any success.
    pub fn step(&mut self, ok: bool, now: &str) -> (ev: Option<AlertEvent>)
        ensures
            final(self)@ == spec_step(old(self)@, ok, now@).0,
            event_view(ev) == spec_step(old(self)@, ok, now@).1,
            ok ==> final(self).fail_count == 0,
            !ok ==> final(self).fail_count >= old(self).fail_count,
    {
        if ok {
            let ev = match &self.outage_start {
                Some(start) => Some(
                    AlertEvent::Recovery { start: start.clone(), end: now.to_owned() },
                ),
                None => None,
            };
            self.fail_count = 0;
            self.first_fail = None;
            self.outage_start = None;
            ev
        } else {
            self.fail_count = self.fail_count.saturating_add(1);
            if self.fail_count == 1 {
                self.first_fail = Some(now.to_owned());
            }
            if self.fail_count == 3 && self.outage_start.is_none() {
                let start = match &self.first_fail {
                    Some(s) => s.clone(),
                    None => now.to_owned(),
                };
                self.outage_start = Some(start.clone());
                Some(AlertEvent::OutageStart { start })
            } else {
                None
            }
        }
    }
}

/// Length of the maximal suffix of consecutive failures in a run of probe
/// outcomes (`true` = success, `false` = failure).
pub open spec fn trailing_fails(oks: Seq<bool>) -> nat
    decreases oks.len(),
{
    if oks.len() == 0 {
        0
    } else if oks.last() {
        0
    } else {
        trailing_fails(oks.drop_last()) + 1
    }
}

/// Number of ticks at which a failure streak reaches exactly three consecutive
/// failures.  Every maximal streak of at least three failures contains exactly
/// one such tick — the one where its third failure lands — so this is the
/// number of maximal failure streaks of length at least three.
pub open spec fn outage_onsets(oks: Seq<bool>) -> nat
    decreases oks.len(),
{
    if oks.len() == 0 {
        0
    } else {
        outage_onsets(oks.drop_last()) + if trailing_fails(oks) == 3 {
            1nat
        } else {
            0nat
        }
    }
}

/// Number of successes that arrive while at least three consecutive failures
/// immediately precede them: the transitions from a confirmed outage back to
/// health.
pub open spec fn outage_recoveries(oks: Seq<bool>) -> nat
    decreases oks.len(),
{
    if oks.len() == 0 {
        0
    } else {
        outage_recoveries(oks.drop_last()) + if oks.last() && trailing_fails(oks.drop_last())
            >= 3 {
            1nat
        } else {
            0nat
        }
    }
}

/// The detector state after consuming outcomes `oks` with timestamps `times`,
/// starting from the initial state.
pub open spec fn run_model(oks: Seq<bool>, times: Seq<Seq<char>>) -> OutageModel
    decreases oks.len(),
{
    if oks.len() == 0 {
        initial_model()
    } else {
        spec_step(run_model(oks.drop_last(), times.drop_last()), oks.last(), times.last()).0
    }
}

/// Number of outage-start events the detector emits over a run.
pub open spec fn starts_emitted(oks: Seq<bool>, times: Seq<Seq<char>>) -> nat
    decreases oks.len(),
{
    if oks.len() == 0 {
        0
    } else {
        starts_emitted(oks.drop_last(), times.drop_last()) + if spec_step(
            run_model(oks.drop_last(), times.drop_last()),
            oks.last(),
            times.last(),
        ).1 matches Some(AlertModel::OutageStart { .. }) {
            1nat
        } else {
            0nat
        }
    }
}

/// Number of recovery events the detector emits over a run.
pub open spec fn recoveries_emitted(oks: Seq<bool>, times: Seq<Seq<char>>) -> nat
    decreases oks.len(),
{
    if oks.len() == 0 {
        0
    } else {
        recoveries_emitted(oks.drop_last(), times.drop_last()) + if spec_step(
            run_model(oks.drop_last(), times.drop_last()),
            oks.last(),
            times.last(),
        ).1 matches Some(AlertModel::Recovery { .. }) {
            1nat
        } else {
            0nat
        }
    }
}

/// Run invariant: the failure counter equals the length of the trailing
/// failure streak (saturating at `u32::MAX`), an outage is recorded exactly
/// while that streak has reached three, and a first-failure timestamp is held
/// exactly while a streak is in progress.
pub proof fn lemma_run_invariant(oks: Seq<bool>, times: Seq<Seq<char>>)
    requires
        times.len() == oks.len(),
    ensures
        ({
            let m = run_model(oks, times);
            let t = trailing_fails(oks);
            &&& (t < u32::MAX ==> m.fail_count == t)
            &&& (t >= u32::MAX ==> m.fail_count == u32::MAX)
            &&& (m.outage_start is Some <==> t >= 3)
            &&& (m.first_fail is Some <==> t >= 1)
        }),
    decreases oks.len(),
{
    if oks.len() > 0 {
        lemma_run_invariant(oks.drop_last(), times.drop_last());
    }
}

/// Law: the detector emits exactly one outage-start event per maximal streak
/// of at least three consecutive failures — one at the tick where the third
/// failure of the streak lands and none at later failures of the same streak —
/// and exactly one recovery event per success that ends a confirmed outage,
/// whatever the timestamps of the ticks.
pub proof fn lemma_alerts_edge_triggered(oks: Seq<bool>, times: Seq<Seq<char>>)
    requires
        times.len() == oks.len(),
    ensures
        starts_emitted(oks, times) == outage_onsets(oks),
        recoveries_emitted(oks, times) == outage_recoveries(oks),
    decreases oks.len(),
{
    if oks.len() > 0 {
        lemma_alerts_edge_triggered(oks.drop_last(), times.drop_last());
        lemma_run_invariant(oks.drop_last(), times.drop_last());
    }
}

/// Law: outage-start and recovery events balance.  Every confirmed outage
/// produces a recovery event when a success ends it, so over any run the
/// number of outage-start events exceeds the number of recoveries exactly by
/// one when the run still sits in a confirmed outage and by nothing otherwise.
pub proof fn lemma_starts_recoveries_balance(oks: Seq<bool>)
    ensures
        outage_onsets(oks) == outage_recoveries(oks) + if trailing_fails(oks) >= 3 {
            1nat
        } else {
            0nat
        },
    decreases oks.len(),
{
    if oks.len() > 0 {
        lemma_starts_recoveries_balance(oks.drop_last());
    }
}

} // verus!
