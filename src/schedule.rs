//! The decisions the probing loop makes on each tick: how long to wait, what
//! the tick's outcomes add up to, and when the alert fires.
use vstd::prelude::*;

use crate::ping::PingOutcome;
use crate::targets::Target;

verus! {

/// Wait between ticks when no target is configured: one second, in nanoseconds.
pub const DEFAULT_INTERVAL_NS: u64 = 1_000_000_000;

/// Whether `r` is the smallest interval among `targets`.
pub open spec fn is_min_interval(targets: Seq<Target>, r: u64) -> bool {
    &&& exists|i: int| 0 <= i < targets.len() && targets[i].interval_ns == r
    &&& forall|i: int| 0 <= i < targets.len() ==> r <= #[trigger] targets[i].interval_ns
}

/// The wait before the next tick: the smallest interval among the targets
/// read during this tick, or the default where there are none.
pub fn next_interval(targets: &[Target]) -> (r: u64)
    ensures
        targets@.len() == 0 ==> r == DEFAULT_INTERVAL_NS,
        targets@.len() > 0 ==> is_min_interval(targets@, r),
{
    if targets.len() == 0 {
        return DEFAULT_INTERVAL_NS;
    }
    let mut best: u64 = targets[0].interval_ns;
    let mut i: usize = 1;
    assert(targets@.subrange(0, 1)[0] == targets@[0]);
    while i < targets.len()
        invariant
            1 <= i <= targets@.len(),
            is_min_interval(targets@.subrange(0, i as int), best),
        decreases targets@.len() - i,
    {
        let ghost prev = targets@.subrange(0, i as int);
        let ghost next = targets@.subrange(0, i + 1);
        assert(forall|j: int| 0 <= j < i ==> prev[j] == next[j]);
        if targets[i].interval_ns < best {
            best = targets[i].interval_ns;
        }
        assert(next[i as int] == targets@[i as int]);
        i = i + 1;
    }
    assert(targets@.subrange(0, targets@.len() as int) =~= targets@);
    best
}

/// Whether every outcome of a tick is a success.
pub open spec fn spec_all_succeeded(outcomes: Seq<PingOutcome>) -> bool {
    forall|i: int| 0 <= i < outcomes.len() ==> (#[trigger] outcomes[i]).success
}

pub fn all_succeeded(outcomes: &[PingOutcome]) -> (r: bool)
    ensures
        r == spec_all_succeeded(outcomes@),
{
    let mut i: usize = 0;
    while i < outcomes.len()
        invariant
            i <= outcomes@.len(),
            forall|j: int| 0 <= j < i ==> (#[trigger] outcomes@[j]).success,
        decreases outcomes@.len() - i,
    {
        if !outcomes[i].success {
            return false;
        }
        i = i + 1;
    }
    true
}

/// The outcomes of the probes that finished, in order: a probe whose task
/// failed has no outcome.
pub open spec fn finished(results: Seq<Option<PingOutcome>>) -> Seq<PingOutcome>
    decreases results.len(),
{
    if results.len() == 0 {
        Seq::empty()
    } else {
        let before = finished(results.drop_last());
        match results.last() {
            Some(o) => before.push(o),
            None => before,
        }
    }
}

/// Gathers a tick's outcomes from the results of its probe tasks.
pub fn collect_outcomes(results: Vec<Option<PingOutcome>>) -> (r: Vec<PingOutcome>)
    ensures
        r@ == finished(results@),
{
    let mut out: Vec<PingOutcome> = Vec::new();
    let mut i: usize = 0;
    let n = results.len();
    let mut rest = results;
    while i < n
        invariant
            n == results@.len(),
            i <= n,
            rest@ == results@.subrange(i as int, n as int),
            out@ == finished(results@.subrange(0, i as int)),
        decreases n - i,
    {
        let item = rest.remove(0);
        proof {
            assert(results@.subrange(0, i + 1).drop_last() =~= results@.subrange(0, i as int));
            assert(results@.subrange(0, i + 1).last() == item);
            assert(rest@ =~= results@.subrange(i + 1, n as int));
        }
        match item {
            Some(o) => out.push(o),
            None => {},
        }
        i = i + 1;
    }
    assert(results@.subrange(0, n as int) =~= results@);
    out
}

proof fn lemma_finished_all(results: Seq<Option<PingOutcome>>)
    requires
        forall|i: int| 0 <= i < results.len() ==> (#[trigger] results[i]) is Some,
    ensures
        finished(results).len() == results.len(),
        forall|i: int| 0 <= i < results.len() ==> Some(#[trigger] finished(results)[i]) == results[i],
    decreases results.len(),
{
    if results.len() > 0 {
        let before = results.drop_last();
        assert(forall|i: int| 0 <= i < before.len() ==> before[i] == results[i]);
        lemma_finished_all(before);
    }
}

/// When every probe task of a tick finishes, the tick keeps one outcome per
/// target, and a single failed probe makes the tick unsuccessful.
pub proof fn lemma_partial_failure_isolated(results: Seq<Option<PingOutcome>>, failed: int)
    requires
        forall|i: int| 0 <= i < results.len() ==> (#[trigger] results[i]) is Some,
        0 <= failed < results.len(),
        !results[failed].unwrap().success,
    ensures
        finished(results).len() == results.len(),
        !spec_all_succeeded(finished(results)),
{
    lemma_finished_all(results);
    assert(Some(finished(results)[failed]) == results[failed]);
}

/// Whether a tick with these outcomes sounds the alert, given the health
/// recorded at the previous tick (`None`: unknown).
pub open spec fn alert_fires(last: Option<bool>, outcomes: Seq<PingOutcome>) -> bool {
    !spec_all_succeeded(outcomes) && last != Some(false)
}

/// What a tick asks of the presentation side.
#[derive(Debug, Clone, Copy, PartialEq, Eq)]
pub struct TickReport {
    /// Sound the alert.
    pub play_alert: bool,
    /// Show the healthy (`Some(true)`) or unhealthy (`Some(false)`) icon;
    /// `None` leaves the icon as it is.
    pub icon: Option<bool>,
}

/// The health recorded from one tick to the next.
#[derive(Debug, Clone, Copy, PartialEq, Eq)]
pub struct AlertState {
    /// Whether every probe of the last tick succeeded; `None` when unknown.
    pub last_success: Option<bool>,
}

impl AlertState {
    pub fn new() -> (r: Self)
        ensures
            r.last_success is None,
    {
        AlertState { last_success: None }
    }

    /// A tick without targets: the health becomes unknown again.
    pub fn clear(&mut self)
        ensures
            final(self).last_success is None,
    {
        self.last_success = None;
    }

    /// Records a tick's outcomes. The alert is edge-triggered: it fires on a
    /// failing tick only when the previous tick was not already failing.
    pub fn record(&mut self, outcomes: &[PingOutcome]) -> (r: TickReport)
        ensures
            r.play_alert == alert_fires(old(self).last_success, outcomes@),
            r.icon == if outcomes@.len() == 0 {
                None
            } else {
                Some(spec_all_succeeded(outcomes@))
            },
            final(self).last_success == Some(spec_all_succeeded(outcomes@)),
    {
        let ok = all_succeeded(outcomes);
        let play_alert = !ok && self.last_success != Some(false);
        let icon = if outcomes.len() == 0 { None } else { Some(ok) };
        self.last_success = Some(ok);
        TickReport { play_alert, icon }
    }
}

/// What to do at the end of a tick, and how long to wait for the next.
#[derive(Debug, Clone, Copy, PartialEq, Eq)]
pub struct TickPlan {
    pub report: TickReport,
    pub sleep_ns: u64,
}

impl AlertState {
    /// Ends a tick that read `targets` and gathered `outcomes` from probing
    /// them. Without targets nothing is reported and the health becomes
    /// unknown.
    pub fn end_tick(&mut self, targets: &[Target], outcomes: &[PingOutcome]) -> (r: TickPlan)
        ensures
            targets@.len() == 0 ==> final(self).last_success is None && r.report == (TickReport {
                play_alert: false,
                icon: None,
            }),
            targets@.len() > 0 ==> r.report.play_alert == alert_fires(
                old(self).last_success,
                outcomes@,
            ) && r.report.icon == (if outcomes@.len() == 0 {
                None
            } else {
                Some(spec_all_succeeded(outcomes@))
            }) && final(self).last_success == Some(spec_all_succeeded(outcomes@)),
            targets@.len() == 0 ==> r.sleep_ns == DEFAULT_INTERVAL_NS,
            targets@.len() > 0 ==> is_min_interval(targets@, r.sleep_ns),
    {
        let report = if targets.len() == 0 {
            self.clear();
            TickReport { play_alert: false, icon: None }
        } else {
            self.record(outcomes)
        };
        TickPlan { report, sleep_ns: next_interval(targets) }
    }
}

/// Over three failing ticks that follow a tick which was not failing, the
/// alert fires on the first only.
pub proof fn lemma_alert_edge_triggered(
    last: Option<bool>,
    t1: Seq<PingOutcome>,
    t2: Seq<PingOutcome>,
    t3: Seq<PingOutcome>,
)
    requires
        last != Some(false),
        !spec_all_succeeded(t1),
        !spec_all_succeeded(t2),
        !spec_all_succeeded(t3),
    ensures
        alert_fires(last, t1),
        !alert_fires(Some(spec_all_succeeded(t1)), t2),
        !alert_fires(Some(spec_all_succeeded(t2)), t3),
{
}

} // verus!
