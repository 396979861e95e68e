//! When a cached state must be generated anew before it is used.

use vstd::prelude::*;
use crate::entry::StateEntry;

verus! {

impl StateEntry {
    /// Whether the revalidation interval of this entry, if it has one, has passed
    /// at `now`: the time since generation is the interval or more.
    pub open spec fn interval_elapsed(&self, now: u64) -> bool {
        match self.revalidation_interval {
            Some(interval) => now - self.generation_timestamp >= interval,
            None => false,
        }
    }

    /// Whether this entry is stale at `now`: its interval has passed, or the
    /// revalidation predicate called it stale. Either is enough.
    pub open spec fn spec_is_stale(&self, now: u64) -> bool {
        self.interval_elapsed(now) || self.predicate_result == Some(true)
    }

    /// Decides whether this entry must be generated anew before a request made at
    /// `now` may use it.
    #[verifier::when_used_as_spec(spec_is_stale)]
    pub fn is_stale(&self, now: u64) -> (stale: bool)
        ensures
            stale == self.spec_is_stale(now),
    {
        let condemned = match self.predicate_result {
            Some(verdict) => verdict,
            None => false,
        };
        condemned || self.interval_has_elapsed(now)
    }

    /// Whether a request at `now` must have this entry generated anew, where
    /// `verdict` is what the template's revalidation predicate said of the entry
    /// for that request, if it was asked: whether the entry, so judged, is stale.
    pub open spec fn spec_must_regenerate(&self, now: u64, verdict: Option<bool>) -> bool {
        self.judged(verdict).is_stale(now)
    }

    /// Decides whether a request at `now` must have this entry generated anew
    /// before it may use it.
    #[verifier::when_used_as_spec(spec_must_regenerate)]
    pub fn must_regenerate(&self, now: u64, verdict: Option<bool>) -> (due: bool)
        ensures
            due == self.spec_must_regenerate(now, verdict),
    {
        match verdict {
            Some(stale) => stale || self.interval_has_elapsed(now),
            None => self.is_stale(now),
        }
    }

    fn interval_has_elapsed(&self, now: u64) -> (elapsed: bool)
        ensures
            elapsed == self.interval_elapsed(now),
    {
        match self.revalidation_interval {
            Some(interval) => now >= self.generation_timestamp && now
                - self.generation_timestamp >= interval,
            None => false,
        }
    }
}

/// An entry generated at `t0` with interval `i`, which no predicate calls stale,
/// is stale at every time from `t0 + i` on and at no time before it.
pub proof fn lemma_stale_from_interval_on(entry: StateEntry, now: u64)
    requires
        entry.revalidation_interval.is_some(),
        entry.predicate_result != Some(true),
    ensures
        now >= entry.generation_timestamp + entry.revalidation_interval.unwrap()
            <==> entry.is_stale(now),
{
}

/// An entry that the revalidation predicate calls stale is stale at any time,
/// whatever its interval says.
pub proof fn lemma_predicate_forces_stale(entry: StateEntry, now: u64)
    requires
        entry.predicate_result == Some(true),
    ensures
        entry.is_stale(now),
{
}

/// An entry without an interval, which no predicate calls stale, never goes stale.
pub proof fn lemma_never_stale_without_signal(entry: StateEntry, now: u64)
    requires
        entry.revalidation_interval.is_none(),
        entry.predicate_result != Some(true),
    ensures
        !entry.is_stale(now),
{
}

} // verus!
