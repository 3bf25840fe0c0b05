//! Failure statistics over logged probe results: counts per hour of the day
//! and per day of the week, and the bars that draw them.
use vstd::prelude::*;

verus! {

/// Width of a full histogram bar, in characters.
pub const BAR_WIDTH: usize = 50;

/// One logged probe result, with its local time already broken down.
#[derive(Debug, Clone, Copy, PartialEq, Eq)]
pub struct PingEvent {
    /// Seconds since the Unix epoch.
    pub timestamp_s: i64,
    /// Hour of the local day, 0 to 23.
    pub hour: u32,
    /// Day of the week, 0 for Monday to 6 for Sunday.
    pub weekday: u32,
    pub success: bool,
}

/// How events are grouped.
#[derive(Debug, Clone, Copy, PartialEq, Eq, Structural)]
pub enum Bucketing {
    ByHour,
    ByWeekday,
}

pub open spec fn bucket_count(by: Bucketing) -> nat {
    match by {
        Bucketing::ByHour => 24,
        Bucketing::ByWeekday => 7,
    }
}

pub open spec fn bucket_of(e: PingEvent, by: Bucketing) -> u32 {
    match by {
        Bucketing::ByHour => e.hour,
        Bucketing::ByWeekday => e.weekday,
    }
}

/// How many events fall in bucket `b`.
pub open spec fn total_in(events: Seq<PingEvent>, by: Bucketing, b: int) -> nat
    decreases events.len(),
{
    if events.len() == 0 {
        0
    } else {
        total_in(events.drop_last(), by, b) + if bucket_of(events.last(), by) == b { 1nat } else { 0nat }
    }
}

/// How many failed events fall in bucket `b`.
pub open spec fn failures_in(events: Seq<PingEvent>, by: Bucketing, b: int) -> nat
    decreases events.len(),
{
    if events.len() == 0 {
        0
    } else {
        failures_in(events.drop_last(), by, b) + if bucket_of(events.last(), by) == b
            && !events.last().success { 1nat } else { 0nat }
    }
}

proof fn lemma_counts_bounded(events: Seq<PingEvent>, by: Bucketing, b: int)
    ensures
        failures_in(events, by, b) <= total_in(events, by, b) <= events.len(),
    decreases events.len(),
{
    if events.len() > 0 {
        lemma_counts_bounded(events.drop_last(), by, b);
    }
}

/// Failures and totals per bucket.
#[derive(Debug, Clone)]
pub struct Tally {
    pub failures: Vec<usize>,
    pub totals: Vec<usize>,
}

/// Counts events and failures per bucket; an event outside every bucket is
/// not counted.
pub fn tally(events: &[PingEvent], by: Bucketing) -> (r: Tally)
    ensures
        r.failures@.len() == bucket_count(by),
        r.totals@.len() == bucket_count(by),
        forall|b: int|
            0 <= b < bucket_count(by) ==> r.failures@[b] == failures_in(events@, by, b)
                && r.totals@[b] == total_in(events@, by, b),
{
    let buckets: usize = match by {
        Bucketing::ByHour => 24,
        Bucketing::ByWeekday => 7,
    };
    let mut failures: Vec<usize> = Vec::new();
    let mut totals: Vec<usize> = Vec::new();
    let mut k: usize = 0;
    while k < buckets
        invariant
            buckets == bucket_count(by),
            k <= buckets,
            failures@.len() == k,
            totals@.len() == k,
            forall|b: int| 0 <= b < k ==> failures@[b] == 0 && totals@[b] == 0,
        decreases buckets - k,
    {
        failures.push(0);
        totals.push(0);
        k = k + 1;
    }
    let mut i: usize = 0;
    while i < events.len()
        invariant
            buckets == bucket_count(by),
            i <= events@.len(),
            failures@.len() == buckets,
            totals@.len() == buckets,
            forall|b: int|
                0 <= b < buckets ==> failures@[b] == failures_in(events@.subrange(0, i as int), by, b)
                    && totals@[b] == total_in(events@.subrange(0, i as int), by, b),
        decreases events@.len() - i,
    {
        let e = events[i];
        let ghost prefix = events@.subrange(0, i + 1);
        proof {
            assert(prefix.drop_last() =~= events@.subrange(0, i as int));
            assert(prefix.last() == e);
        }
        let b = match by {
            Bucketing::ByHour => e.hour,
            Bucketing::ByWeekday => e.weekday,
        };
        if (b as usize) < buckets {
            let bi = b as usize;
            proof {
                lemma_counts_bounded(events@.subrange(0, i as int), by, bi as int);
            }
            let t = totals[bi] + 1;
            totals.set(bi, t);
            if !e.success {
                let f = failures[bi] + 1;
                failures.set(bi, f);
            }
        }
        i = i + 1;
    }
    assert(events@.subrange(0, events@.len() as int) =~= events@);
    Tally { failures, totals }
}

/// The largest count, 0 for none.
pub fn max_count(counts: &[usize]) -> (r: usize)
    ensures
        forall|i: int| 0 <= i < counts@.len() ==> counts@[i] <= r,
        counts@.len() == 0 ==> r == 0,
        counts@.len() > 0 ==> exists|i: int| 0 <= i < counts@.len() && counts@[i] == r,
{
    let mut best: usize = 0;
    let mut i: usize = 0;
    while i < counts.len()
        invariant
            i <= counts@.len(),
            forall|j: int| 0 <= j < i ==> counts@[j] <= best,
            i == 0 ==> best == 0,
            i > 0 ==> exists|j: int| 0 <= j < i && counts@[j] == best,
        decreases counts@.len() - i,
    {
        if counts[i] > best || i == 0 {
            best = counts[i];
        }
        i = i + 1;
    }
    best
}

/// The length of a bucket's bar: its failures in proportion to the largest
/// bucket's, on `width` characters, rounded down; nothing when no bucket
/// has failures.
pub fn bar_length(failures: usize, max_failures: usize, width: usize) -> (r: usize)
    requires
        failures as int * width as int <= usize::MAX,
    ensures
        max_failures == 0 ==> r == 0,
        max_failures > 0 ==> r == (failures as int * width as int) / max_failures as int,
{
    if max_failures > 0 {
        (failures * width) / max_failures
    } else {
        0
    }
}

/// The events at or after `since_s`, in order.
pub open spec fn since(events: Seq<PingEvent>, since_s: i64) -> Seq<PingEvent> {
    events.filter(|e: PingEvent| e.timestamp_s >= since_s)
}

pub fn recent_events(events: &[PingEvent], since_s: i64) -> (r: Vec<PingEvent>)
    ensures
        r@ == since(events@, since_s),
{
    let mut out: Vec<PingEvent> = Vec::new();
    let mut i: usize = 0;
    while i < events.len()
        invariant
            i <= events@.len(),
            out@ == since(events@.subrange(0, i as int), since_s),
        decreases events@.len() - i,
    {
        let e = events[i];
        proof {
            let p = events@.subrange(0, i + 1);
            assert(p.drop_last() =~= events@.subrange(0, i as int));
            assert(p.last() == e);
            reveal(Seq::filter);
        }
        if e.timestamp_s >= since_s {
            out.push(e);
        }
        i = i + 1;
    }
    assert(events@.subrange(0, events@.len() as int) =~= events@);
    out
}

} // verus!
