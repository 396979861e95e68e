//! What the coordinator keeps over time: an entry stays as it is until something
//! is done to its key that is meant to change it.

use vstd::prelude::*;
use crate::coordinator::{AdmissionView, BuildLockView, CoordinatorView, WaiterView};
use crate::entry::StateEntry;
use crate::error::GenerationError;
use crate::key::PathKeyView;
use crate::strategy::Phase;
use crate::template::Template;

verus! {

/// One thing that can be done to a coordinator.
pub enum Operation {
    GenerateOrFetch {
        key: PathKeyView,
        template: Template,
        phase: Phase,
        now: u64,
        verdict: Option<bool>,
    },
    Resume { waiter: WaiterView, template: Template, phase: Phase },
    Complete { lock: BuildLockView, outcome: Result<String, GenerationError>, now: u64 },
    Cancel { lock: BuildLockView },
    Abandon { lock: BuildLockView },
    Put { key: PathKeyView, entry: StateEntry },
    Invalidate { key: PathKeyView },
}

impl Operation {
    /// The coordinator after this operation.
    pub open spec fn apply(self, before: CoordinatorView) -> CoordinatorView {
        match self {
            Operation::GenerateOrFetch {
                key,
                template,
                phase,
                now,
                verdict,
            } => before.generate_or_fetch(
                key,
                template,
                phase,
                now,
                verdict,
            ).0,
            Operation::Resume { waiter, template, phase } => before.resume(
                waiter,
                template,
                phase,
            ).0,
            Operation::Complete { lock, outcome, now } => before.complete(lock, outcome, now).0,
            Operation::Cancel { lock } => before.cancel(lock),
            Operation::Abandon { lock } => before.abandon(lock),
            Operation::Put { key, entry } => before.put(key, entry),
            Operation::Invalidate { key } => before.invalidate(key),
        }
    }

    /// Whether this operation is meant to change the entry of `key`: it puts an
    /// entry there, invalidates the key, or ends a build of the key with a state.
    pub open spec fn rewrites(self, key: PathKeyView) -> bool {
        match self {
            Operation::Put { key: target, .. } => target == key,
            Operation::Invalidate { key: target } => target == key,
            Operation::Complete { lock, outcome, .. } => lock.key == key && outcome is Ok,
            _ => false,
        }
    }
}

impl CoordinatorView {
    /// The coordinator after the given operations, first to last.
    pub open spec fn after(self, operations: Seq<Operation>) -> CoordinatorView
        decreases operations.len(),
    {
        if operations.len() == 0 {
            self
        } else {
            operations.last().apply(self.after(operations.drop_last()))
        }
    }
}

/// A caller that is served an entry is served the entry that the cache holds
/// for its key, and the coordinator is left as it was.
pub proof fn lemma_served_entry_is_cached(
    before: CoordinatorView,
    key: PathKeyView,
    template: Template,
    phase: Phase,
    now: u64,
    verdict: Option<bool>,
    retried: bool,
)
    ensures
        ({
            let (after, admission) = before.generate_or_fetch(key, template, phase, now, verdict);
            admission matches AdmissionView::Serve(entry) ==> after == before
                && before.cache.contains_key(key) && before.cache[key] == entry
        }),
        ({
            let (after, admission) = before.resume(WaiterView { key, retried }, template, phase);
            admission matches AdmissionView::Serve(entry) ==> after == before
                && before.cache.contains_key(key) && before.cache[key] == entry
        }),
{
}

/// A build that ends with a state leaves that state as the entry of its key,
/// and that entry is what the builder is handed.
pub proof fn lemma_built_state_is_cached(
    before: CoordinatorView,
    lock: BuildLockView,
    payload: String,
    now: u64,
)
    ensures
        ({
            let (after, result) = before.complete(lock, Ok(payload), now);
            &&& result is Ok
            &&& result->Ok_0.payload == payload
            &&& result->Ok_0.generation_timestamp == now
            &&& after.cache.contains_key(lock.key)
            &&& after.cache[lock.key] == result->Ok_0
        }),
{
}

/// The entry of a key stays what it is, and a key without an entry stays
/// without one, through any operations but those that rewrite the key: requests
/// and builds of other keys, requests for the key itself, failed, cancelled and
/// broken builds change nothing of it.
pub proof fn lemma_entry_stays_until_rewritten(
    before: CoordinatorView,
    key: PathKeyView,
    operations: Seq<Operation>,
)
    requires
        forall|i: int| 0 <= i < operations.len() ==> !(#[trigger] operations[i]).rewrites(key),
    ensures
        before.after(operations).cache.contains_key(key) == before.cache.contains_key(key),
        before.cache.contains_key(key) ==> before.after(operations).cache[key]
            == before.cache[key],
    decreases operations.len(),
{
    if operations.len() > 0 {
        let earlier = operations.drop_last();
        assert forall|i: int| 0 <= i < earlier.len() implies !(#[trigger] earlier[i]).rewrites(
            key,
        ) by {
            assert(earlier[i] == operations[i]);
        }
        lemma_entry_stays_until_rewritten(before, key, earlier);
        assert(operations.last() == operations[operations.len() - 1]);
    }
}

/// A state that a build has left in the cache is what every later look at the
/// cache finds for its key, with the same payload, until the key is rewritten:
/// invalidated, put anew, or generated anew because its entry had gone stale.
pub proof fn lemma_built_state_stays_cached(
    before: CoordinatorView,
    lock: BuildLockView,
    payload: String,
    now: u64,
    operations: Seq<Operation>,
)
    requires
        forall|i: int|
            0 <= i < operations.len() ==> !(#[trigger] operations[i]).rewrites(lock.key),
    ensures
        ({
            let (built, result) = before.complete(lock, Ok(payload), now);
            let later = built.after(operations);
            &&& later.cache.contains_key(lock.key)
            &&& Ok::<StateEntry, GenerationError>(later.cache[lock.key]) == result
            &&& later.cache[lock.key].payload == payload
        }),
{
    let (built, result) = before.complete(lock, Ok(payload), now);
    lemma_entry_stays_until_rewritten(built, lock.key, operations);
}

/// A request finds a cached entry with an interval fresh at every time before
/// the interval has passed and serves it then; from that time on it does not
/// serve the entry, and where the template has a procedure for the request and
/// the lock of the key is free, the caller is told to generate the state anew.
pub proof fn lemma_request_revalidates_from_interval_on(
    before: CoordinatorView,
    key: PathKeyView,
    template: Template,
    phase: Phase,
    now: u64,
    verdict: Option<bool>,
)
    requires
        before.cache.contains_key(key),
        before.cache[key].revalidation_interval.is_some(),
        before.cache[key].predicate_result != Some(true),
        verdict != Some(true),
    ensures
        ({
            let entry = before.cache[key];
            let due = now >= entry.generation_timestamp + entry.revalidation_interval.unwrap();
            let (after, admission) = before.generate_or_fetch(key, template, phase, now, verdict);
            &&& !due ==> after == before && admission == AdmissionView::Serve(entry)
            &&& due ==> !(admission is Serve)
            &&& due && template.spec_plan(key, phase).is_some() && !before.locks.contains_key(key)
                ==> admission is Generate && after.building(key)
        }),
{
}

/// A build that fails leaves the cache as it was before the build: no entry is
/// made, and an entry that was there is untouched. The failure is handed on as
/// it is.
pub proof fn lemma_failed_build_leaves_cache(
    before: CoordinatorView,
    lock: BuildLockView,
    error: GenerationError,
    now: u64,
)
    ensures
        before.complete(lock, Err(error), now).0.cache == before.cache,
        before.complete(lock, Err(error), now).1 == Err::<StateEntry, GenerationError>(error),
        !before.complete(lock, Err(error), now).0.building(lock.key),
{
}

/// A request that leads to a build which fails leaves the coordinator as it was
/// before the request: the cache as it was, and the lock free again.
pub proof fn lemma_failed_request_leaves_no_trace(
    before: CoordinatorView,
    key: PathKeyView,
    template: Template,
    phase: Phase,
    now: u64,
    verdict: Option<bool>,
    error: GenerationError,
    later: u64,
)
    ensures
        ({
            let (during, admission) = before.generate_or_fetch(key, template, phase, now, verdict);
            admission matches AdmissionView::Generate(lock, _) ==> during.complete(
                lock,
                Err(error),
                later,
            ) == (before, Err::<StateEntry, GenerationError>(error))
        }),
{
    let (during, admission) = before.generate_or_fetch(key, template, phase, now, verdict);
    if let AdmissionView::Generate(lock, _) = admission {
        assert(lock.key == key);
        assert(during.locks.remove(key) =~= before.locks);
    }
}

/// A request that leads to a build which is called off leaves the coordinator
/// as it was before the request: nothing is written, and the lock is free again.
pub proof fn lemma_cancelled_request_leaves_no_trace(
    before: CoordinatorView,
    key: PathKeyView,
    template: Template,
    phase: Phase,
    now: u64,
    verdict: Option<bool>,
)
    ensures
        ({
            let (during, admission) = before.generate_or_fetch(key, template, phase, now, verdict);
            admission matches AdmissionView::Generate(lock, _) ==> during.cancel(lock) == before
        }),
{
    let (during, admission) = before.generate_or_fetch(key, template, phase, now, verdict);
    if let AdmissionView::Generate(lock, _) = admission {
        assert(lock.key == key);
        assert(during.locks.remove(key) =~= before.locks);
    }
}

/// Once a build of a key has broken off, no caller is told to build that key or
/// to wait for it: a caller is served the key's entry where it may use it, and
/// is rejected otherwise. Where the key has no entry and the template has a
/// procedure for the request, the error is the one that tells of the poisoned
/// lock.
pub proof fn lemma_poisoned_key_fails_fast(
    before: CoordinatorView,
    key: PathKeyView,
    template: Template,
    phase: Phase,
    now: u64,
    verdict: Option<bool>,
    retried: bool,
)
    requires
        before.poisoned(key),
    ensures
        ({
            let (after, admission) = before.generate_or_fetch(key, template, phase, now, verdict);
            let rejected = AdmissionView::Reject(GenerationError::LockPoisoned);
            &&& after == before
            &&& admission is Serve || admission is Reject
            &&& template.spec_plan(key, phase).is_some() && !before.cache.contains_key(key)
                ==> admission == rejected
        }),
        ({
            let (after, admission) = before.resume(WaiterView { key, retried }, template, phase);
            let rejected = AdmissionView::Reject(GenerationError::LockPoisoned);
            &&& after == before
            &&& admission is Serve || admission is Reject
            &&& template.spec_plan(key, phase).is_some() && !before.cache.contains_key(key)
                ==> admission == rejected
        }),
{
}

} // verus!
