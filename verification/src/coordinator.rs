//! Who builds and who waits: one build per key at a time, and its result
//! committed to the cache.
//!
//! The coordinator only decides. A caller asks with [`Coordinator::generate_or_fetch`] and
//! is told to use a cached entry, to generate the state itself, to wait for the
//! build that is under way, or that nothing can be done. It reports the end of
//! its build with [`Coordinator::complete`], and a caller that waited asks again
//! with [`Coordinator::resume`].

use vstd::prelude::*;
use crate::cache::StateCache;
use crate::entry::StateEntry;
use crate::error::GenerationError;
use crate::key::{PathKey, PathKeyView};
use crate::strategy::{GenerationStrategy, Phase, Procedure};
use crate::table::Table;
use crate::template::Template;

verus! {

/// The state of the build lock of a key that is not free.
#[derive(Clone, Copy, PartialEq, Eq, Debug, Structural)]
pub enum LockState {
    /// A build of the key is under way.
    Held,
    /// A build of the key broke off without giving the lock back.
    Poisoned,
}

/// The right to build the state of one key. Only the coordinator hands one out,
/// to one builder at a time, and takes it back when the build has ended.
#[derive(Debug)]
pub struct BuildLock {
    key: PathKey,
    strategy: GenerationStrategy,
    revalidation_interval: Option<u64>,
}

/// What a [`BuildLock`] stands for.
pub struct BuildLockView {
    /// The key to build.
    pub key: PathKeyView,
    /// The strategy of the template that the build is for.
    pub strategy: GenerationStrategy,
    /// The revalidation interval of that template.
    pub revalidation_interval: Option<u64>,
}

impl View for BuildLock {
    type V = BuildLockView;

    closed spec fn view(&self) -> BuildLockView {
        BuildLockView {
            key: self.key@,
            strategy: self.strategy,
            revalidation_interval: self.revalidation_interval,
        }
    }
}

impl BuildLock {
    /// The key that this lock gives the right to build.
    pub fn key(&self) -> (key: &PathKey)
        ensures
            key@ == self@.key,
    {
        &self.key
    }
}

/// The place of a caller that waits for a build by another.
#[derive(Debug)]
pub struct Waiter {
    key: PathKey,
    retried: bool,
}

/// What a [`Waiter`] stands for.
pub struct WaiterView {
    /// The key that is waited for.
    pub key: PathKeyView,
    /// Whether the caller has tried for the lock again since it first waited.
    pub retried: bool,
}

impl View for Waiter {
    type V = WaiterView;

    closed spec fn view(&self) -> WaiterView {
        WaiterView { key: self.key@, retried: self.retried }
    }
}

impl Waiter {
    /// The key that is waited for.
    pub fn key(&self) -> (key: &PathKey)
        ensures
            key@ == self@.key,
    {
        &self.key
    }
}

/// What a caller is to do about its request.
#[derive(Debug)]
pub enum Admission {
    /// Use this entry.
    Serve(StateEntry),
    /// Generate the state by this procedure, then report with
    /// [`Coordinator::complete`].
    Generate(BuildLock, Procedure),
    /// A build is under way: wait until it has ended, then ask with
    /// [`Coordinator::resume`].
    Wait(Waiter),
    /// Give up with this error.
    Reject(GenerationError),
}

/// What an [`Admission`] stands for.
pub enum AdmissionView {
    Serve(StateEntry),
    Generate(BuildLockView, Procedure),
    Wait(WaiterView),
    Reject(GenerationError),
}

impl View for Admission {
    type V = AdmissionView;

    open spec fn view(&self) -> AdmissionView {
        match self {
            Admission::Serve(entry) => AdmissionView::Serve(*entry),
            Admission::Generate(lock, procedure) => AdmissionView::Generate(lock@, *procedure),
            Admission::Wait(waiter) => AdmissionView::Wait(waiter@),
            Admission::Reject(error) => AdmissionView::Reject(*error),
        }
    }
}

/// What a [`Coordinator`] stands for: the entry of each cached key, and the lock
/// state of each key whose lock is not free.
pub struct CoordinatorView {
    pub cache: Map<PathKeyView, StateEntry>,
    pub locks: Map<PathKeyView, LockState>,
}

impl CoordinatorView {
    /// Whether `key` has an entry that a request at `now` may use as it is, given
    /// what the revalidation predicate said of it.
    pub open spec fn fresh_hit(self, key: PathKeyView, now: u64, verdict: Option<bool>) -> bool {
        self.cache.contains_key(key) && !self.cache[key].must_regenerate(now, verdict)
    }

    /// Whether a build of `key` is under way.
    pub open spec fn building(self, key: PathKeyView) -> bool {
        self.locks.contains_key(key) && self.locks[key] == LockState::Held
    }

    /// Whether the lock of `key` is poisoned.
    pub open spec fn poisoned(self, key: PathKeyView) -> bool {
        self.locks.contains_key(key) && self.locks[key] == LockState::Poisoned
    }

    /// What becomes of a caller that found nothing to use for `key`. `waited` is
    /// `None` for a caller that has just arrived, and for one that has waited it
    /// says whether it had tried for the lock again before.
    ///
    /// Without a procedure to run the caller is rejected. Else it fails at once on
    /// a poisoned lock, gives up if it had already tried again, takes the lock if
    /// it is free, and waits otherwise.
    pub open spec fn contend(
        self,
        key: PathKeyView,
        template: Template,
        phase: Phase,
        waited: Option<bool>,
    ) -> (CoordinatorView, AdmissionView) {
        match template.spec_plan(key, phase) {
            None => (self, AdmissionView::Reject(GenerationError::StrategyMismatch)),
            Some(procedure) => if self.poisoned(key) {
                (self, AdmissionView::Reject(GenerationError::LockPoisoned))
            } else if waited == Some(true) {
                (self, AdmissionView::Reject(GenerationError::Unavailable))
            } else if self.building(key) {
                (self, AdmissionView::Wait(WaiterView { key, retried: waited.is_some() }))
            } else {
                (
                    CoordinatorView { locks: self.locks.insert(key, LockState::Held), ..self },
                    AdmissionView::Generate(
                        BuildLockView {
                            key,
                            strategy: template.strategy(),
                            revalidation_interval: template.revalidation_interval(),
                        },
                        procedure,
                    ),
                )
            },
        }
    }

    /// What a request for `key` at `now` comes to: a cached entry that is not
    /// stale is served, and the coordinator stays as it is; anything else goes by
    /// [`CoordinatorView::contend`].
    pub open spec fn generate_or_fetch(
        self,
        key: PathKeyView,
        template: Template,
        phase: Phase,
        now: u64,
        verdict: Option<bool>,
    ) -> (CoordinatorView, AdmissionView) {
        if self.fresh_hit(key, now, verdict) {
            (self, AdmissionView::Serve(self.cache[key]))
        } else {
            self.contend(key, template, phase, None)
        }
    }

    /// What becomes of a caller that waited, once the build it waited for has
    /// ended: it is served the entry of its key if there is one, stale or not,
    /// and goes by [`CoordinatorView::contend`] if there is none.
    pub open spec fn resume(self, waiter: WaiterView, template: Template, phase: Phase) -> (
        CoordinatorView,
        AdmissionView,
    ) {
        if self.cache.contains_key(waiter.key) {
            (self, AdmissionView::Serve(self.cache[waiter.key]))
        } else {
            self.contend(waiter.key, template, phase, Some(waiter.retried))
        }
    }

    /// The coordinator with the lock of `key` given back, if a build held it.
    pub open spec fn release(self, key: PathKeyView) -> CoordinatorView {
        if self.building(key) {
            CoordinatorView { locks: self.locks.remove(key), ..self }
        } else {
            self
        }
    }

    /// The entry that a build under `lock` leaves when it generated `payload` at
    /// `now`.
    pub open spec fn built_entry(lock: BuildLockView, payload: String, now: u64) -> StateEntry {
        StateEntry {
            payload,
            strategy: lock.strategy,
            generation_timestamp: now,
            revalidation_interval: lock.revalidation_interval,
            predicate_result: None,
        }
    }

    /// What the end of a build comes to. The lock is given back either way. A
    /// state becomes the entry of the key, in place of any it had; a failure
    /// leaves the cache as it is and is handed on.
    pub open spec fn complete(
        self,
        lock: BuildLockView,
        outcome: Result<String, GenerationError>,
        now: u64,
    ) -> (CoordinatorView, Result<StateEntry, GenerationError>) {
        let released = self.release(lock.key);
        match outcome {
            Ok(payload) => {
                let entry = Self::built_entry(lock, payload, now);
                (
                    CoordinatorView { cache: self.cache.insert(lock.key, entry), ..released },
                    Ok(entry),
                )
            },
            Err(error) => (released, Err(error)),
        }
    }

    /// The coordinator after a build under `lock` was called off: the lock is
    /// given back, the cache is as it was.
    pub open spec fn cancel(self, lock: BuildLockView) -> CoordinatorView {
        self.release(lock.key)
    }

    /// The coordinator after a build under `lock` broke off: its lock is poisoned,
    /// the cache is as it was.
    pub open spec fn abandon(self, lock: BuildLockView) -> CoordinatorView {
        CoordinatorView { locks: self.locks.insert(lock.key, LockState::Poisoned), ..self }
    }

    /// The coordinator with `entry` as the cached entry of `key`, in place of any
    /// it had.
    pub open spec fn put(self, key: PathKeyView, entry: StateEntry) -> CoordinatorView {
        CoordinatorView { cache: self.cache.insert(key, entry), ..self }
    }

    /// The coordinator without a cached entry of `key`.
    pub open spec fn invalidate(self, key: PathKeyView) -> CoordinatorView {
        CoordinatorView { cache: self.cache.remove(key), ..self }
    }
}

/// Serves requests for states from a cache and sees to it that a state that has
/// to be generated is generated by one caller at a time.
pub struct Coordinator {
    cache: StateCache,
    locks: Table<LockState>,
}

impl View for Coordinator {
    type V = CoordinatorView;

    closed spec fn view(&self) -> CoordinatorView {
        CoordinatorView { cache: self.cache@, locks: self.locks@ }
    }
}

impl Coordinator {
    /// A coordinator with an empty cache and every lock free.
    pub fn new() -> (coordinator: Coordinator)
        ensures
            coordinator@.cache == Map::<PathKeyView, StateEntry>::empty(),
            coordinator@.locks == Map::<PathKeyView, LockState>::empty(),
    {
        Coordinator { cache: StateCache::new(), locks: Table::new() }
    }

    /// A snapshot of the cached entry of `key`, if it has one.
    pub fn get(&self, key: &PathKey) -> (found: Option<StateEntry>)
        ensures
            found == if self@.cache.contains_key(key@) {
                Some(self@.cache[key@])
            } else {
                None
            },
    {
        self.cache.get(key)
    }

    /// Makes `entry` the cached entry of `key`, in place of any it had.
    pub fn put(&mut self, key: PathKey, entry: StateEntry)
        ensures
            final(self)@ == old(self)@.put(key@, entry),
    {
        self.cache.put(key, entry);
    }

    /// Removes the cached entry of `key` and says whether there was one.
    pub fn invalidate(&mut self, key: &PathKey) -> (removed: bool)
        ensures
            final(self)@ == old(self)@.invalidate(key@),
            removed == old(self)@.cache.contains_key(key@),
    {
        self.cache.invalidate(key)
    }

    /// The state of the build lock of `key`, or `None` if it is free.
    pub fn lock_state(&self, key: &PathKey) -> (state: Option<LockState>)
        ensures
            state == if self@.locks.contains_key(key@) {
                Some(self@.locks[key@])
            } else {
                None
            },
    {
        match self.locks.get(key) {
            Some(state) => Some(*state),
            None => None,
        }
    }

    fn contend(
        &mut self,
        key: &PathKey,
        template: &Template,
        phase: Phase,
        waited: Option<bool>,
    ) -> (admission: Admission)
        ensures
            (final(self)@, admission@) == old(self)@.contend(key@, *template, phase, waited),
    {
        let procedure = match template.plan(key, phase) {
            Some(procedure) => procedure,
            None => {
                return Admission::Reject(GenerationError::StrategyMismatch);
            },
        };
        match self.lock_state(key) {
            Some(LockState::Poisoned) => Admission::Reject(GenerationError::LockPoisoned),
            state => {
                let retried = match waited {
                    Some(retried) => retried,
                    None => false,
                };
                if retried {
                    Admission::Reject(GenerationError::Unavailable)
                } else if state.is_some() {
                    Admission::Wait(Waiter { key: key.duplicate(), retried: waited.is_some() })
                } else {
                    self.locks.insert(key.duplicate(), LockState::Held);
                    Admission::Generate(
                        BuildLock {
                            key: key.duplicate(),
                            strategy: template.strategy(),
                            revalidation_interval: template.revalidation_interval(),
                        },
                        procedure,
                    )
                }
            },
        }
    }

    /// Takes up a request for the state of `key` made at `now`. `verdict` is what
    /// the template's revalidation predicate said of the cached entry, if the
    /// template has one and the key an entry.
    pub fn generate_or_fetch(
        &mut self,
        key: &PathKey,
        template: &Template,
        phase: Phase,
        now: u64,
        verdict: Option<bool>,
    ) -> (admission: Admission)
        ensures
            (final(self)@, admission@) == old(self)@.generate_or_fetch(
                key@,
                *template,
                phase,
                now,
                verdict,
            ),
    {
        match self.cache.get(key) {
            Some(entry) => {
                if !entry.must_regenerate(now, verdict) {
                    return Admission::Serve(entry);
                }
            },
            None => {},
        }
        self.contend(key, template, phase, None)
    }

    /// Takes up the request of a caller that waited, once the build it waited for
    /// has ended.
    pub fn resume(&mut self, waiter: Waiter, template: &Template, phase: Phase) -> (admission:
        Admission)
        ensures
            (final(self)@, admission@) == old(self)@.resume(waiter@, *template, phase),
    {
        match self.cache.get(&waiter.key) {
            Some(entry) => Admission::Serve(entry),
            None => self.contend(&waiter.key, template, phase, Some(waiter.retried)),
        }
    }

    fn release(&mut self, key: &PathKey)
        ensures
            final(self)@ == old(self)@.release(key@),
    {
        match self.lock_state(key) {
            Some(LockState::Held) => {
                self.locks.remove(key);
            },
            _ => {},
        }
    }

    /// Ends the build under `lock` with what the generation came to at `now`, and
    /// hands on the entry that was cached, or the failure.
    pub fn complete(
        &mut self,
        lock: BuildLock,
        outcome: Result<String, GenerationError>,
        now: u64,
    ) -> (result: Result<StateEntry, GenerationError>)
        ensures
            (final(self)@, result) == old(self)@.complete(lock@, outcome, now),
    {
        self.release(&lock.key);
        match outcome {
            Ok(payload) => {
                let entry = StateEntry::generated(
                    payload,
                    lock.strategy,
                    now,
                    lock.revalidation_interval,
                );
                let served = entry.snapshot();
                self.cache.put(lock.key, entry);
                Ok(served)
            },
            Err(error) => Err(error),
        }
    }

    /// Calls off the build under `lock`: nothing is cached, the lock is free.
    pub fn cancel(&mut self, lock: BuildLock)
        ensures
            final(self)@ == old(self)@.cancel(lock@),
    {
        self.release(&lock.key);
    }

    /// Records that the build under `lock` broke off: nothing is cached, and the
    /// lock is poisoned.
    pub fn abandon(&mut self, lock: BuildLock)
        ensures
            final(self)@ == old(self)@.abandon(lock@),
    {
        self.locks.insert(lock.key, LockState::Poisoned);
    }
}

} // verus!
