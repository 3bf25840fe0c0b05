//! The VPN state cache: which network adapters match the configured VPN
//! criteria, when that list must be rebuilt, and what the adapters' states
//! say about the VPN.
use vstd::prelude::*;

use crate::config::{
    block_kind_is, is_block_kind, lookup_spec, lookup_string, ConfigBlock, ConfigError,
    ConfigErrorKind, ConfigErrorView, Lookup,
};
use crate::ping::opt_view;

verus! {

/// How long a list of matching adapters is trusted: 30 seconds, in nanoseconds.
pub const VPN_REFRESH_INTERVAL_NS: u64 = 30_000_000_000;

/// What identifies a VPN adapter: its display name.
#[derive(Debug, Clone)]
pub struct VpnCriterion {
    pub display_name: Option<String>,
}

/// A network adapter as enumeration reports it.
#[derive(Debug, Clone)]
pub struct AdapterInfo {
    /// The adapter's locally unique identifier.
    pub id: u64,
    pub display_name: String,
}

/// What a status query reports of one adapter.
#[derive(Debug, Clone, Copy, PartialEq, Eq, Structural)]
pub enum AdapterStatus {
    /// Operationally up.
    Up,
    /// Present but not up.
    NotUp,
    /// The query failed: the adapter may have gone away.
    Unavailable,
}

impl VpnCriterion {
    pub open spec fn spec_matches(&self, name: Seq<char>) -> bool {
        match self.display_name {
            Some(d) => d@ == name,
            None => false,
        }
    }

    /// Whether the adapter's display name is the one this criterion names.
    pub fn matches(&self, adapter: &AdapterInfo) -> (r: bool)
        ensures
            r == self.spec_matches(adapter.display_name@),
    {
        match &self.display_name {
            Some(d) => *d == adapter.display_name,
            None => false,
        }
    }
}

/// Whether some criterion matches the display name.
pub open spec fn matches_any(criteria: Seq<VpnCriterion>, name: Seq<char>) -> bool {
    exists|i: int| 0 <= i < criteria.len() && (#[trigger] criteria[i]).spec_matches(name)
}

/// The ids of the adapters that some criterion matches, in enumeration order.
pub open spec fn matching_ids(adapters: Seq<AdapterInfo>, criteria: Seq<VpnCriterion>) -> Seq<u64>
    decreases adapters.len(),
{
    if adapters.len() == 0 {
        Seq::empty()
    } else {
        let before = matching_ids(adapters.drop_last(), criteria);
        if matches_any(criteria, adapters.last().display_name@) {
            before.push(adapters.last().id)
        } else {
            before
        }
    }
}

/// The fingerprint of a criteria list: its display names, in order.
pub open spec fn criteria_names(criteria: Seq<VpnCriterion>) -> Seq<Option<Seq<char>>> {
    criteria.map_values(|c: VpnCriterion| opt_view(c.display_name))
}

pub open spec fn names_view(names: Seq<Option<String>>) -> Seq<Option<Seq<char>>> {
    names.map_values(|n: Option<String>| opt_view(n))
}

/// Time from `t` to `now`, nothing where `now` is earlier.
pub open spec fn elapsed(now: u64, t: u64) -> nat {
    if now >= t { (now - t) as nat } else { 0 }
}

/// Whether any adapter reported is up.
pub open spec fn any_up(statuses: Seq<AdapterStatus>) -> bool {
    exists|i: int| 0 <= i < statuses.len() && statuses[i] == AdapterStatus::Up
}

/// Whether an adapter was lost before the first one found up.
pub open spec fn lost_before_up(statuses: Seq<AdapterStatus>) -> bool {
    exists|i: int|
        0 <= i < statuses.len() && statuses[i] == AdapterStatus::Unavailable
            && forall|j: int| 0 <= j < i ==> statuses[j] != AdapterStatus::Up
}

/// Cached list of the adapters that match the VPN criteria. Rebuilding it
/// takes a full enumeration of the adapters; between rebuilds only the cached
/// adapters' states are queried.
#[derive(Debug)]
pub struct VpnDetector {
    pub matched_ids: Vec<u64>,
    /// When the list was last rebuilt, in nanoseconds of a monotonic clock.
    pub last_refresh: Option<u64>,
    pub refresh_interval: u64,
    /// The criteria the list was built from.
    pub last_criteria_names: Vec<Option<String>>,
}

impl VpnDetector {
    /// Whether the list must be rebuilt before answering: it never was, it is
    /// older than the refresh interval, the configuration is newer than it, or
    /// the criteria changed.
    pub open spec fn spec_needs_refresh(
        &self,
        criteria: Seq<VpnCriterion>,
        now: u64,
        snapshot_time: u64,
    ) -> bool {
        let stale = match self.last_refresh {
            None => true,
            Some(t) => elapsed(now, t) > self.refresh_interval || snapshot_time > t,
        };
        stale || names_view(self.last_criteria_names@) != criteria_names(criteria)
    }

    pub fn new() -> (r: Self)
        ensures
            r.matched_ids@.len() == 0,
            r.last_refresh is None,
            r.refresh_interval == VPN_REFRESH_INTERVAL_NS,
            r.last_criteria_names@.len() == 0,
    {
        VpnDetector {
            matched_ids: Vec::new(),
            last_refresh: None,
            refresh_interval: VPN_REFRESH_INTERVAL_NS,
            last_criteria_names: Vec::new(),
        }
    }

    fn same_criteria(&self, criteria: &[VpnCriterion]) -> (r: bool)
        ensures
            r == (names_view(self.last_criteria_names@) == criteria_names(criteria@)),
    {
        let n = self.last_criteria_names.len();
        if n != criteria.len() {
            assert(names_view(self.last_criteria_names@).len() != criteria_names(criteria@).len());
            return false;
        }
        let mut i: usize = 0;
        while i < n
            invariant
                n == self.last_criteria_names@.len(),
                n == criteria@.len(),
                i <= n,
                forall|j: int|
                    0 <= j < i ==> opt_view(#[trigger] self.last_criteria_names@[j]) == opt_view(
                        criteria@[j].display_name,
                    ),
            decreases n - i,
        {
            let same = match (&self.last_criteria_names[i], &criteria[i].display_name) {
                (Some(a), Some(b)) => *a == *b,
                (None, None) => true,
                _ => false,
            };
            if !same {
                assert(names_view(self.last_criteria_names@)[i as int] != criteria_names(
                    criteria@,
                )[i as int]);
                return false;
            }
            i = i + 1;
        }
        assert(names_view(self.last_criteria_names@) =~= criteria_names(criteria@));
        true
    }

    /// Whether a full enumeration is due; see `spec_needs_refresh`.
    pub fn needs_refresh(&self, criteria: &[VpnCriterion], now: u64, snapshot_time: u64) -> (r:
        bool)
        ensures
            r == self.spec_needs_refresh(criteria@, now, snapshot_time),
    {
        let stale = match self.last_refresh {
            None => true,
            Some(t) => {
                let age: u64 = if now >= t { now - t } else { 0 };
                age > self.refresh_interval || snapshot_time > t
            },
        };
        stale || !self.same_criteria(criteria)
    }

    /// Rebuilds the list from a full enumeration made at `now`.
    pub fn update_matches(&mut self, criteria: &[VpnCriterion], adapters: &[AdapterInfo], now: u64)
        ensures
            final(self).matched_ids@ == matching_ids(adapters@, criteria@),
            final(self).last_refresh == Some(now),
            final(self).refresh_interval == old(self).refresh_interval,
            names_view(final(self).last_criteria_names@) == criteria_names(criteria@),
    {
        let mut ids: Vec<u64> = Vec::new();
        let mut i: usize = 0;
        while i < adapters.len()
            invariant
                i <= adapters@.len(),
                ids@ == matching_ids(adapters@.subrange(0, i as int), criteria@),
            decreases adapters@.len() - i,
        {
            let adapter = &adapters[i];
            let mut hit = false;
            let mut k: usize = 0;
            while k < criteria.len()
                invariant
                    k <= criteria@.len(),
                    hit == exists|j: int|
                        0 <= j < k && (#[trigger] criteria@[j]).spec_matches(adapter.display_name@),
                decreases criteria@.len() - k,
            {
                if criteria[k].matches(adapter) {
                    hit = true;
                }
                k = k + 1;
            }
            proof {
                let s = adapters@.subrange(0, i + 1);
                assert(s.drop_last() =~= adapters@.subrange(0, i as int));
                assert(s.last() == adapters@[i as int]);
            }
            if hit {
                ids.push(adapter.id);
            }
            i = i + 1;
        }
        assert(adapters@.subrange(0, adapters@.len() as int) =~= adapters@);
        let mut names: Vec<Option<String>> = Vec::new();
        let mut k: usize = 0;
        while k < criteria.len()
            invariant
                k <= criteria@.len(),
                names@.len() == k,
                names_view(names@) =~= criteria_names(criteria@.subrange(0, k as int)),
            decreases criteria@.len() - k,
        {
            let name = match &criteria[k].display_name {
                Some(d) => Some(d.as_str().to_owned()),
                None => None,
            };
            let ghost before = names@;
            names.push(name);
            proof {
                assert(opt_view(name) == opt_view(criteria@[k as int].display_name));
                let sub = criteria@.subrange(0, k + 1);
                assert(names_view(names@).len() == criteria_names(sub).len());
                assert forall|j: int| 0 <= j < k + 1 implies names_view(names@)[j]
                    == criteria_names(sub)[j] by {
                    if j < k {
                        assert(names@[j] == before[j]);
                        assert(names_view(before)[j] == criteria_names(criteria@.subrange(0, k as int))[j]);
                    }
                }
            }
            k = k + 1;
        }
        assert(criteria@.subrange(0, criteria@.len() as int) =~= criteria@);
        self.matched_ids = ids;
        self.last_refresh = Some(now);
        self.last_criteria_names = names;
    }

    /// Answers whether a VPN is active from the states of the cached
    /// adapters, queried in order up to the first one found up. No criteria
    /// means no VPN. A lost adapter makes the next call rebuild the list.
    pub fn is_vpn_active(&mut self, criteria: &[VpnCriterion], statuses: &[AdapterStatus]) -> (r:
        bool)
        ensures
            criteria@.len() == 0 ==> !r && *final(self) == *old(self),
            criteria@.len() > 0 ==> r == any_up(statuses@),
            criteria@.len() > 0 ==> final(self).last_refresh == if lost_before_up(statuses@) {
                None
            } else {
                old(self).last_refresh
            },
            final(self).matched_ids == old(self).matched_ids,
            final(self).refresh_interval == old(self).refresh_interval,
            final(self).last_criteria_names == old(self).last_criteria_names,
    {
        if criteria.len() == 0 {
            return false;
        }
        let mut i: usize = 0;
        while i < statuses.len()
            invariant
                i <= statuses@.len(),
                criteria@.len() > 0,
                forall|j: int| 0 <= j < i ==> statuses@[j] != AdapterStatus::Up,
                self.matched_ids == old(self).matched_ids,
                self.refresh_interval == old(self).refresh_interval,
                self.last_criteria_names == old(self).last_criteria_names,
                self.last_refresh == if (exists|j: int|
                    0 <= j < i && statuses@[j] == AdapterStatus::Unavailable) {
                    None
                } else {
                    old(self).last_refresh
                },
            decreases statuses@.len() - i,
        {
            match statuses[i] {
                AdapterStatus::Up => {
                    assert(any_up(statuses@));
                    assert(lost_before_up(statuses@) == (exists|j: int|
                        0 <= j < i && statuses@[j] == AdapterStatus::Unavailable));
                    return true;
                },
                AdapterStatus::Unavailable => {
                    self.last_refresh = None;
                },
                AdapterStatus::NotUp => {},
            }
            i = i + 1;
        }
        assert(lost_before_up(statuses@) == (exists|j: int|
            0 <= j < statuses@.len() && statuses@[j] == AdapterStatus::Unavailable));
        false
    }
}

/// The name that marks a VPN criterion block.
pub open spec fn criterion_kind() -> Seq<char> {
    seq!['p', 'i', 'i', 'n', 'g', '_', 'v', 'p', 'n', '_', 'c', 'r', 'i', 't', 'e', 'r', 'i', 'o', 'n']
}

pub open spec fn display_name_key() -> Seq<char> {
    seq!['d', 'i', 's', 'p', 'l', 'a', 'y', '_', 'n', 'a', 'm', 'e']
}

/// The name of a block: its second label, or nothing.
pub open spec fn block_name(block: ConfigBlock) -> Seq<char> {
    if block.labels@.len() >= 2 { block.labels@[1]@ } else { Seq::empty() }
}

/// What a configuration block says of a VPN criterion: nothing where it is not
/// a criterion block; else a criterion whose display name is the block's
/// `display_name`, absent where the block has none; an error where it is not
/// a string.
pub open spec fn decode_criterion_spec(file: Seq<char>, block: ConfigBlock) -> Result<
    Option<Option<Seq<char>>>,
    ConfigErrorView,
> {
    if !block_kind_is(block, criterion_kind()) {
        Ok(None)
    } else {
        match lookup_spec(block, display_name_key()) {
            Ok(name) => Ok(Some(Some(name))),
            Err(ConfigErrorKind::MissingAttribute) => Ok(Some(None)),
            Err(kind) => Err(
                ConfigErrorView { kind, file, block: block_name(block), detail: display_name_key() },
            ),
        }
    }
}

/// The criteria of a file's blocks, in order, or the first error.
pub open spec fn decode_criteria_spec(file: Seq<char>, blocks: Seq<ConfigBlock>) -> Result<
    Seq<Option<Seq<char>>>,
    ConfigErrorView,
>
    decreases blocks.len(),
{
    if blocks.len() == 0 {
        Ok(Seq::empty())
    } else {
        match decode_criteria_spec(file, blocks.drop_last()) {
            Err(e) => Err(e),
            Ok(cs) => match decode_criterion_spec(file, blocks.last()) {
                Err(e) => Err(e),
                Ok(None) => Ok(cs),
                Ok(Some(c)) => Ok(cs.push(c)),
            },
        }
    }
}

proof fn lemma_decode_criteria_error_stays(file: Seq<char>, blocks: Seq<ConfigBlock>, k: int)
    requires
        0 <= k <= blocks.len(),
        decode_criteria_spec(file, blocks.subrange(0, k)) is Err,
    ensures
        decode_criteria_spec(file, blocks) == decode_criteria_spec(file, blocks.subrange(0, k)),
    decreases blocks.len() - k,
{
    if k < blocks.len() {
        let next = blocks.subrange(0, k + 1);
        assert(next.drop_last() =~= blocks.subrange(0, k));
        lemma_decode_criteria_error_stays(file, blocks, k + 1);
    } else {
        assert(blocks.subrange(0, k) =~= blocks);
    }
}

/// Reads every VPN criterion a configuration file declares.
pub fn decode_vpn_criteria(file_path: &str, blocks: &[ConfigBlock]) -> (r: Result<
    Vec<VpnCriterion>,
    ConfigError,
>)
    ensures
        decode_criteria_spec(file_path@, blocks@) == match r {
            Ok(cs) => Ok(criteria_names(cs@)),
            Err(e) => Err(e@),
        },
{
    proof {
        reveal_strlit("piing_vpn_criterion");
        reveal_strlit("display_name");
        assert("piing_vpn_criterion"@ =~= criterion_kind());
        assert("display_name"@ =~= display_name_key());
    }
    let mut out: Vec<VpnCriterion> = Vec::new();
    let mut i: usize = 0;
    assert(blocks@.subrange(0, 0) =~= Seq::<ConfigBlock>::empty());
    assert(criteria_names(out@) =~= Seq::<Option<Seq<char>>>::empty());
    while i < blocks.len()
        invariant
            i <= blocks@.len(),
            "piing_vpn_criterion"@ == criterion_kind(),
            "display_name"@ == display_name_key(),
            decode_criteria_spec(file_path@, blocks@.subrange(0, i as int)) == Ok::<
                Seq<Option<Seq<char>>>,
                ConfigErrorView,
            >(criteria_names(out@)),
        decreases blocks@.len() - i,
    {
        let ghost before = out@;
        let block = &blocks[i];
        proof {
            let s = blocks@.subrange(0, i + 1);
            assert(s.drop_last() =~= blocks@.subrange(0, i as int));
            assert(s.last() == *block);
        }
        if is_block_kind(block, "piing_vpn_criterion") {
            let display_name = match lookup_string(block, "display_name") {
                Lookup::Found(v) => Some(v),
                Lookup::Missing => None,
                Lookup::NotString => {
                    let name = if block.labels.len() >= 2 {
                        block.labels[1].as_str()
                    } else {
                        proof {
                            reveal_strlit("");
                            assert(""@ =~= Seq::<char>::empty());
                        }
                        ""
                    };
                    proof {
                        assert(name@ == block_name(*block));
                        lemma_decode_criteria_error_stays(file_path@, blocks@, i + 1);
                    }
                    return Err(
                        ConfigError::new(
                            ConfigErrorKind::NotAString,
                            file_path,
                            name,
                            "display_name",
                        ),
                    );
                },
            };
            out.push(VpnCriterion { display_name });
            assert(criteria_names(out@) =~= criteria_names(before).push(opt_view(display_name)));
        }
        i = i + 1;
    }
    assert(blocks@.subrange(0, blocks@.len() as int) =~= blocks@);
    Ok(out)
}

/// Once the list is rebuilt at `t`, with the criteria unchanged and no newer
/// configuration, no enumeration is due until more than the refresh
/// interval has passed, however often the cache is asked.
pub proof fn lemma_refresh_at_most_once_per_interval(
    cache: VpnDetector,
    criteria: Seq<VpnCriterion>,
    t: u64,
    now: u64,
    snapshot_time: u64,
)
    requires
        cache.last_refresh == Some(t),
        names_view(cache.last_criteria_names@) == criteria_names(criteria),
        t <= now,
        now - t <= cache.refresh_interval,
        snapshot_time <= t,
    ensures
        !cache.spec_needs_refresh(criteria, now, snapshot_time),
{
}

/// A configuration newer than the last rebuild always forces a rebuild, even
/// before the refresh interval has passed.
pub proof fn lemma_newer_snapshot_forces_refresh(
    cache: VpnDetector,
    criteria: Seq<VpnCriterion>,
    now: u64,
    snapshot_time: u64,
)
    requires
        cache.last_refresh is Some,
        snapshot_time > cache.last_refresh.unwrap(),
    ensures
        cache.spec_needs_refresh(criteria, now, snapshot_time),
{
}

} // verus!
