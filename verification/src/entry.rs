//! A generated state as the cache keeps it.

use vstd::prelude::*;
use crate::strategy::GenerationStrategy;

verus! {

/// One generated state with what is needed to tell when it has gone stale.
///
/// Times are counted in ticks of the caller's clock; an interval is a number of
/// the same ticks.
#[derive(Clone, Debug, PartialEq, Eq)]
pub struct StateEntry {
    /// The serialized state.
    pub payload: String,
    /// The strategy of the template that the state was generated for.
    pub strategy: GenerationStrategy,
    /// When the state was generated.
    pub generation_timestamp: u64,
    /// After how long the state is to be generated anew, if ever.
    pub revalidation_interval: Option<u64>,
    /// What the template's own revalidation predicate said of this state, if it
    /// was asked: `true` for stale.
    pub predicate_result: Option<bool>,
}

impl StateEntry {
    /// A state generated at `now` for a template with the given strategy and
    /// revalidation interval; no predicate has judged it yet.
    pub fn generated(
        payload: String,
        strategy: GenerationStrategy,
        now: u64,
        revalidation_interval: Option<u64>,
    ) -> (entry: StateEntry)
        ensures
            entry == (StateEntry {
                payload,
                strategy,
                generation_timestamp: now,
                revalidation_interval,
                predicate_result: None,
            }),
    {
        StateEntry {
            payload,
            strategy,
            generation_timestamp: now,
            revalidation_interval,
            predicate_result: None,
        }
    }

    /// A copy of this entry for a caller to keep.
    pub fn snapshot(&self) -> (copy: StateEntry)
        ensures
            copy == *self,
    {
        StateEntry {
            payload: self.payload.clone(),
            strategy: self.strategy,
            generation_timestamp: self.generation_timestamp,
            revalidation_interval: self.revalidation_interval,
            predicate_result: self.predicate_result,
        }
    }

    /// This entry as the revalidation predicate judged it: with `verdict` in place
    /// of what the entry holds, where there is a verdict.
    pub open spec fn spec_judged(self, verdict: Option<bool>) -> StateEntry {
        match verdict {
            Some(_) => StateEntry { predicate_result: verdict, ..self },
            None => self,
        }
    }

    /// This entry with the verdict of the revalidation predicate on it, if the
    /// predicate was asked.
    #[verifier::when_used_as_spec(spec_judged)]
    pub fn judged(self, verdict: Option<bool>) -> (entry: StateEntry)
        ensures
            entry == self.spec_judged(verdict),
    {
        match verdict {
            Some(_) => StateEntry { predicate_result: verdict, ..self },
            None => self,
        }
    }
}

} // verus!
