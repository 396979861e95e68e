//! Many callers at once: requests for one key that take turns in any order, and
//! what holds however the turns fall.
//!
//! The callers here are a model. Each follows what the coordinator tells it: it
//! asks, waits and resumes, or builds and completes, one step per turn.

use vstd::prelude::*;
use crate::coordinator::{AdmissionView, BuildLockView, CoordinatorView, WaiterView};
use crate::entry::StateEntry;
use crate::error::GenerationError;
use crate::key::PathKeyView;
use crate::strategy::Phase;
use crate::template::Template;

verus! {

/// Where one caller stands with its request.
pub enum Caller {
    /// It has not asked yet.
    Idle,
    /// It holds the build lock and generates the state.
    Building(BuildLockView),
    /// It waits for the build of another caller to end.
    Waiting(WaiterView),
    /// Its request has been answered.
    Resolved(Result<StateEntry, GenerationError>),
    /// It went away while it was building: its build was called off, or broke
    /// off.
    Gone,
}

/// Callers that share one coordinator, and how many builds they have started.
pub struct Contention {
    pub shared: CoordinatorView,
    pub callers: Seq<Caller>,
    pub builds: nat,
}

/// How a build ends.
pub enum Ending {
    /// The generation came to this.
    Completed(Result<String, GenerationError>),
    /// The build was called off.
    Cancelled,
    /// The build broke off.
    Broken,
}

/// One step of one caller. The time and the predicate's verdict count where the
/// caller asks, the ending and the time where it builds.
pub struct Turn {
    pub caller: int,
    pub now: u64,
    pub verdict: Option<bool>,
    pub ending: Ending,
}

impl Contention {
    /// The callers after `who` has been told `admission`.
    pub open spec fn settle(
        self,
        who: int,
        shared: CoordinatorView,
        admission: AdmissionView,
    ) -> Contention {
        match admission {
            AdmissionView::Serve(entry) => Contention {
                shared,
                callers: self.callers.update(who, Caller::Resolved(Ok(entry))),
                builds: self.builds,
            },
            AdmissionView::Generate(lock, _) => Contention {
                shared,
                callers: self.callers.update(who, Caller::Building(lock)),
                builds: self.builds + 1,
            },
            AdmissionView::Wait(waiter) => Contention {
                shared,
                callers: self.callers.update(who, Caller::Waiting(waiter)),
                builds: self.builds,
            },
            AdmissionView::Reject(error) => Contention {
                shared,
                callers: self.callers.update(who, Caller::Resolved(Err(error))),
                builds: self.builds,
            },
        }
    }

    /// The callers after one of them has taken its turn: an idle caller asks, a
    /// waiting caller resumes, the build of a building caller ends as the turn
    /// says, and a caller that has its answer or has gone away does nothing.
    pub open spec fn take(
        self,
        key: PathKeyView,
        template: Template,
        phase: Phase,
        turn: Turn,
    ) -> Contention {
        if 0 <= turn.caller < self.callers.len() {
            match self.callers[turn.caller] {
                Caller::Idle => {
                    let (shared, admission) = self.shared.generate_or_fetch(
                        key,
                        template,
                        phase,
                        turn.now,
                        turn.verdict,
                    );
                    self.settle(turn.caller, shared, admission)
                },
                Caller::Waiting(waiter) => {
                    let (shared, admission) = self.shared.resume(waiter, template, phase);
                    self.settle(turn.caller, shared, admission)
                },
                Caller::Building(lock) => match turn.ending {
                    Ending::Completed(outcome) => {
                        let (shared, result) = self.shared.complete(lock, outcome, turn.now);
                        Contention {
                            shared,
                            callers: self.callers.update(turn.caller, Caller::Resolved(result)),
                            builds: self.builds,
                        }
                    },
                    Ending::Cancelled => Contention {
                        shared: self.shared.cancel(lock),
                        callers: self.callers.update(turn.caller, Caller::Gone),
                        builds: self.builds,
                    },
                    Ending::Broken => Contention {
                        shared: self.shared.abandon(lock),
                        callers: self.callers.update(turn.caller, Caller::Gone),
                        builds: self.builds,
                    },
                },
                Caller::Resolved(_) => self,
                Caller::Gone => self,
            }
        } else {
            self
        }
    }

    /// The callers after the given turns, first to last.
    pub open spec fn play(
        self,
        key: PathKeyView,
        template: Template,
        phase: Phase,
        turns: Seq<Turn>,
    ) -> Contention
        decreases turns.len(),
    {
        if turns.len() == 0 {
            self
        } else {
            self.play(key, template, phase, turns.drop_last()).take(
                key,
                template,
                phase,
                turns.last(),
            )
        }
    }

    /// Every caller has yet to ask.
    pub open spec fn all_idle(self) -> bool {
        forall|i: int| 0 <= i < self.callers.len() ==> self.callers[i] is Idle
    }

    /// Every caller has its answer.
    pub open spec fn all_resolved(self) -> bool {
        forall|i: int| 0 <= i < self.callers.len() ==> self.callers[i] is Resolved
    }

    /// No two callers build at once.
    pub open spec fn one_builder_at_most(self) -> bool {
        forall|i: int, j: int|
            0 <= i < self.callers.len() && 0 <= j < self.callers.len()
                && self.callers[i] is Building && self.callers[j] is Building ==> i == j
    }

    /// Every caller that builds or waits does so for `key`.
    spec fn about(self, key: PathKeyView) -> bool {
        forall|i: int|
            0 <= i < self.callers.len() ==> match #[trigger] self.callers[i] {
                Caller::Building(lock) => lock.key == key,
                Caller::Waiting(waiter) => waiter.key == key,
                _ => true,
            }
    }

    /// At most one caller builds, and while one does the lock of `key` is held.
    spec fn exclusive(self, key: PathKeyView) -> bool {
        &&& self.about(key)
        &&& self.one_builder_at_most()
        &&& (exists|i: int| 0 <= i < self.callers.len() && self.callers[i] is Building)
            ==> self.shared.building(key)
    }

    proof fn lemma_take_keeps_exclusive(
        self,
        key: PathKeyView,
        template: Template,
        phase: Phase,
        turn: Turn,
    )
        requires
            self.exclusive(key),
        ensures
            self.take(key, template, phase, turn).exclusive(key),
            self.take(key, template, phase, turn).callers.len() == self.callers.len(),
    {
    }
}

/// However the turns fall and however the builds end, no two callers ever
/// build the state of the key at the same time.
pub proof fn lemma_one_build_at_a_time(
    start: Contention,
    key: PathKeyView,
    template: Template,
    phase: Phase,
    turns: Seq<Turn>,
)
    requires
        start.all_idle(),
    ensures
        start.play(key, template, phase, turns).one_builder_at_most(),
{
    lemma_play_keeps_exclusive(start, key, template, phase, turns);
}

proof fn lemma_play_keeps_exclusive(
    start: Contention,
    key: PathKeyView,
    template: Template,
    phase: Phase,
    turns: Seq<Turn>,
)
    requires
        start.all_idle(),
    ensures
        start.play(key, template, phase, turns).exclusive(key),
        start.play(key, template, phase, turns).callers.len() == start.callers.len(),
    decreases turns.len(),
{
    if turns.len() == 0 {
        assert(start.exclusive(key));
    } else {
        lemma_play_keeps_exclusive(start, key, template, phase, turns.drop_last());
        start.play(key, template, phase, turns.drop_last()).lemma_take_keeps_exclusive(
            key,
            template,
            phase,
            turns.last(),
        );
    }
}

impl Contention {
    /// Whether `turn` goes smoothly where it is taken: if it ends a build, the
    /// build has generated a state, and if it is the turn of a caller that asks
    /// and finds an entry for `key`, the entry is not stale for it.
    pub open spec fn smooth(self, key: PathKeyView, turn: Turn) -> bool {
        0 <= turn.caller < self.callers.len() ==> match self.callers[turn.caller] {
            Caller::Idle => self.shared.cache.contains_key(key)
                ==> !self.shared.cache[key].must_regenerate(turn.now, turn.verdict),
            Caller::Building(_) => turn.ending matches Ending::Completed(Ok(_)),
            _ => true,
        }
    }

    /// Whether each of `turns` goes smoothly, where it is taken.
    pub open spec fn all_smooth(
        self,
        key: PathKeyView,
        template: Template,
        phase: Phase,
        turns: Seq<Turn>,
    ) -> bool
        decreases turns.len(),
    {
        turns.len() == 0 || (self.all_smooth(key, template, phase, turns.drop_last())
            && self.play(key, template, phase, turns.drop_last()).smooth(key, turns.last()))
    }

    /// Whether `turn` comes in good time: a caller that waits takes its turn only
    /// once no build of `key` is under way.
    pub open spec fn timely(self, key: PathKeyView, turn: Turn) -> bool {
        0 <= turn.caller < self.callers.len() && self.callers[turn.caller] is Waiting
            ==> !self.shared.building(key)
    }

    /// Whether each of `turns` comes in good time, where it is taken.
    pub open spec fn all_timely(
        self,
        key: PathKeyView,
        template: Template,
        phase: Phase,
        turns: Seq<Turn>,
    ) -> bool
        decreases turns.len(),
    {
        turns.len() == 0 || (self.all_timely(key, template, phase, turns.drop_last())
            && self.play(key, template, phase, turns.drop_last()).timely(key, turns.last()))
    }

    /// Nothing has happened yet: no caller has asked, `key` has no entry and its
    /// lock is free.
    pub open spec fn untouched(self, key: PathKeyView) -> bool {
        &&& self.all_idle()
        &&& self.builds == 0
        &&& !self.shared.cache.contains_key(key)
        &&& !self.shared.locks.contains_key(key)
    }

    /// No caller has a state but the one that is cached for `key`.
    spec fn served_from_cache(self, key: PathKeyView) -> bool {
        forall|i: int|
            0 <= i < self.callers.len() ==> match #[trigger] self.callers[i] {
                Caller::Resolved(Ok(entry)) => self.shared.cache.contains_key(key)
                    && self.shared.cache[key] == entry,
                _ => true,
            }
    }

    /// The one build is under way: a caller holds the lock, and `key` has no
    /// entry yet.
    spec fn under_way(self, key: PathKeyView) -> bool {
        &&& self.builds == 1
        &&& !self.shared.cache.contains_key(key)
        &&& self.shared.building(key)
        &&& exists|i: int| 0 <= i < self.callers.len() && self.callers[i] is Building
    }

    /// The one build has ended: `key` has an entry, its lock is free, and nobody
    /// builds.
    spec fn settled(self, key: PathKeyView) -> bool {
        &&& self.builds == 1
        &&& self.shared.cache.contains_key(key)
        &&& !self.shared.locks.contains_key(key)
        &&& forall|i: int| 0 <= i < self.callers.len() ==> !(self.callers[i] is Building)
    }

    /// What holds at every moment of a storm of first requests whose turns go
    /// smoothly.
    spec fn single_build(self, key: PathKeyView) -> bool {
        &&& self.exclusive(key)
        &&& self.served_from_cache(key)
        &&& (self.untouched(key) || self.under_way(key) || self.settled(key))
    }

    /// Nobody has been turned away or has gone away, and nobody has had to try
    /// for the lock again.
    spec fn nobody_lost(self) -> bool {
        forall|i: int|
            0 <= i < self.callers.len() ==> match #[trigger] self.callers[i] {
                Caller::Resolved(Err(_)) => false,
                Caller::Gone => false,
                Caller::Waiting(waiter) => !waiter.retried,
                _ => true,
            }
    }

    proof fn lemma_take_keeps_single_build(
        self,
        key: PathKeyView,
        template: Template,
        phase: Phase,
        turn: Turn,
    )
        requires
            self.single_build(key),
            template.spec_plan(key, phase).is_some(),
            self.smooth(key, turn),
        ensures
            self.take(key, template, phase, turn).single_build(key),
    {
        let after = self.take(key, template, phase, turn);
        self.lemma_take_keeps_exclusive(key, template, phase, turn);
        if 0 <= turn.caller < self.callers.len() {
            let who = turn.caller;
            match self.callers[who] {
                Caller::Idle => {
                    let (shared, admission) = self.shared.generate_or_fetch(
                        key,
                        template,
                        phase,
                        turn.now,
                        turn.verdict,
                    );
                    if self.untouched(key) {
                        assert(admission is Generate);
                        assert(after.callers[who] is Building);
                        assert(after.under_way(key));
                    } else if self.under_way(key) {
                        assert(admission is Wait);
                        let builder = choose|i: int|
                            0 <= i < self.callers.len() && self.callers[i] is Building;
                        assert(after.callers[builder] is Building);
                        assert(after.under_way(key));
                    } else {
                        assert(admission is Serve);
                        assert(after.settled(key));
                    }
                },
                Caller::Waiting(waiter) => {
                    let (shared, admission) = self.shared.resume(waiter, template, phase);
                    assert(waiter.key == key);
                    if self.untouched(key) {
                    } else if self.under_way(key) {
                        assert(admission is Wait || admission is Reject);
                        let builder = choose|i: int|
                            0 <= i < self.callers.len() && self.callers[i] is Building;
                        assert(after.callers[builder] is Building);
                        assert(after.under_way(key));
                    } else {
                        assert(admission is Serve);
                        assert(after.settled(key));
                    }
                },
                Caller::Building(lock) => {
                    assert(lock.key == key);
                    assert(self.under_way(key));
                    assert forall|i: int| 0 <= i < after.callers.len() implies !(
                    after.callers[i] is Building) by {
                        if i != who {
                            assert(after.callers[i] == self.callers[i]);
                        }
                    }
                    assert(after.settled(key));
                    assert(after.served_from_cache(key));
                },
                Caller::Resolved(_) => {},
                Caller::Gone => {},
            }
        }
    }

    proof fn lemma_take_loses_nobody(
        self,
        key: PathKeyView,
        template: Template,
        phase: Phase,
        turn: Turn,
    )
        requires
            self.single_build(key),
            self.nobody_lost(),
            template.spec_plan(key, phase).is_some(),
            self.smooth(key, turn),
            self.timely(key, turn),
        ensures
            self.take(key, template, phase, turn).nobody_lost(),
    {
    }
}

proof fn lemma_play_keeps_single_build(
    start: Contention,
    key: PathKeyView,
    template: Template,
    phase: Phase,
    turns: Seq<Turn>,
)
    requires
        start.untouched(key),
        template.spec_plan(key, phase).is_some(),
        start.all_smooth(key, template, phase, turns),
    ensures
        start.play(key, template, phase, turns).single_build(key),
    decreases turns.len(),
{
    if turns.len() == 0 {
        assert(start.single_build(key));
    } else {
        let before = turns.drop_last();
        lemma_play_keeps_single_build(start, key, template, phase, before);
        start.play(key, template, phase, before).lemma_take_keeps_single_build(
            key,
            template,
            phase,
            turns.last(),
        );
    }
}

proof fn lemma_play_loses_nobody(
    start: Contention,
    key: PathKeyView,
    template: Template,
    phase: Phase,
    turns: Seq<Turn>,
)
    requires
        start.untouched(key),
        template.spec_plan(key, phase).is_some(),
        start.all_smooth(key, template, phase, turns),
        start.all_timely(key, template, phase, turns),
    ensures
        start.play(key, template, phase, turns).nobody_lost(),
    decreases turns.len(),
{
    if turns.len() == 0 {
        assert(start.nobody_lost());
    } else {
        let before = turns.drop_last();
        lemma_play_loses_nobody(start, key, template, phase, before);
        lemma_play_keeps_single_build(start, key, template, phase, before);
        start.play(key, template, phase, before).lemma_take_loses_nobody(
            key,
            template,
            phase,
            turns.last(),
        );
    }
}

/// A storm of first requests for a key that is not cached starts one build and
/// no more, as long as every build that ends has generated a state and no
/// caller that asks finds the cached entry stale: whatever the template and the
/// number of callers, and however their turns fall, once all of them have their
/// answer exactly one build has run, and every state that was served is the one
/// that the build left in the cache.
pub proof fn lemma_storm_builds_once(
    start: Contention,
    key: PathKeyView,
    template: Template,
    phase: Phase,
    turns: Seq<Turn>,
)
    requires
        start.untouched(key),
        template.spec_plan(key, phase).is_some(),
        start.all_smooth(key, template, phase, turns),
    ensures
        ({
            let end = start.play(key, template, phase, turns);
            &&& end.callers.len() == start.callers.len()
            &&& end.builds <= 1
            &&& end.all_resolved() && end.callers.len() > 0 ==> end.builds == 1
            &&& forall|i: int|
                0 <= i < end.callers.len() ==> match #[trigger] end.callers[i] {
                    Caller::Resolved(Ok(entry)) => end.shared.cache.contains_key(key)
                        && end.shared.cache[key] == entry,
                    _ => true,
                }
        }),
{
    lemma_play_keeps_single_build(start, key, template, phase, turns);
    lemma_play_keeps_exclusive(start, key, template, phase, turns);
    let end = start.play(key, template, phase, turns);
    if end.all_resolved() && end.callers.len() > 0 {
        assert(end.callers[0] is Resolved);
    }
}

/// In such a storm every caller that waits until the build has ended before it
/// asks again is served the state that the build left in the cache: nobody is
/// turned away.
pub proof fn lemma_storm_serves_every_caller(
    start: Contention,
    key: PathKeyView,
    template: Template,
    phase: Phase,
    turns: Seq<Turn>,
)
    requires
        start.untouched(key),
        template.spec_plan(key, phase).is_some(),
        start.all_smooth(key, template, phase, turns),
        start.all_timely(key, template, phase, turns),
    ensures
        ({
            let end = start.play(key, template, phase, turns);
            forall|i: int|
                0 <= i < end.callers.len() && (#[trigger] end.callers[i]) is Resolved
                    ==> end.shared.cache.contains_key(key) && end.callers[i] == Caller::Resolved(
                    Ok(end.shared.cache[key]),
                )
        }),
{
    lemma_play_loses_nobody(start, key, template, phase, turns);
    lemma_storm_builds_once(start, key, template, phase, turns);
    let end = start.play(key, template, phase, turns);
    assert forall|i: int|
        0 <= i < end.callers.len() && (#[trigger] end.callers[i]) is Resolved implies
        end.shared.cache.contains_key(key) && end.callers[i] == Caller::Resolved(
        Ok(end.shared.cache[key]),
    ) by {
        assert(end.nobody_lost());
    }
}

impl Caller {
    /// How many turns of its own a caller can still take before it has its
    /// answer, at most.
    pub open spec fn turns_left(self) -> nat {
        match self {
            Caller::Idle => 3,
            Caller::Waiting(waiter) => if waiter.retried {
                1
            } else {
                2
            },
            Caller::Building(_) => 1,
            Caller::Resolved(_) => 0,
            Caller::Gone => 0,
        }
    }
}

/// No caller goes on for ever: each turn brings the caller that takes it closer
/// to its end, which it reaches after three turns of its own at the latest, and
/// leaves every other caller where it stood.
pub proof fn lemma_turn_brings_end_closer(
    before: Contention,
    key: PathKeyView,
    template: Template,
    phase: Phase,
    turn: Turn,
)
    requires
        0 <= turn.caller < before.callers.len(),
        !(before.callers[turn.caller] is Resolved),
        !(before.callers[turn.caller] is Gone),
    ensures
        ({
            let after = before.take(key, template, phase, turn);
            &&& after.callers.len() == before.callers.len()
            &&& after.callers[turn.caller].turns_left() < before.callers[turn.caller].turns_left()
            &&& forall|i: int|
                0 <= i < before.callers.len() && i != turn.caller ==> after.callers[i]
                    == before.callers[i]
        }),
{
}

} // verus!
