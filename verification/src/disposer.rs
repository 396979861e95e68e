//! The one rendering scope that is live: before the next page's handle is
//! installed, the previous one is taken out of the slot and disposed of.

use vstd::prelude::*;

verus! {

/// What one step on the slot comes to: the handle that is held afterwards, and
/// the one that has left the slot, if one was held before.
pub struct Handoff<H> {
    pub held: Option<H>,
    pub retired: Option<H>,
}

/// Emptying the slot: nothing is held, and what was held has left the slot.
pub open spec fn retiring<H>(held: Option<H>) -> Handoff<H> {
    Handoff { held: None, retired: held }
}

/// Installing `handle` where `held` was: `handle` is held, and what was held
/// has left the slot.
pub open spec fn installing<H>(held: Option<H>, handle: H) -> Handoff<H> {
    Handoff { held: Some(handle), retired: held }
}

/// One update: the slot is emptied first, and `handle` is installed in the
/// empty slot. What was held before is retired.
pub open spec fn updated<H>(held: Option<H>, handle: H) -> Handoff<H> {
    Handoff {
        held: installing(retiring(held).held, handle).held,
        retired: retiring(held).retired,
    }
}

/// What a series of updates comes to, first to last: the handle held in the
/// end, and the handles retired on the way, in the order of their retirement.
pub open spec fn updated_all<H>(held: Option<H>, handles: Seq<H>) -> (Option<H>, Seq<H>)
    decreases handles.len(),
{
    if handles.len() == 0 {
        (held, Seq::empty())
    } else {
        let (before, retired) = updated_all(held, handles.drop_last());
        let last = updated(before, handles.last());
        (
            last.held,
            match last.retired {
                Some(handle) => retired.push(handle),
                None => retired,
            },
        )
    }
}

/// Holds the disposal handle of the page on display, so that the page's scope
/// can be torn down when the view changes.
///
/// The handle that is held cannot be looked at or copied. It leaves the slot
/// once only, to be disposed of, and the slot is empty while that is done.
pub struct PageDisposer<H> {
    current: Option<H>,
}

impl<H> View for PageDisposer<H> {
    type V = Option<H>;

    /// The handle that is held, if any.
    closed spec fn view(&self) -> Option<H> {
        self.current
    }
}

impl<H> Default for PageDisposer<H> {
    /// A slot that holds nothing.
    fn default() -> (disposer: PageDisposer<H>)
        ensures
            disposer@.is_none(),
    {
        PageDisposer { current: None }
    }
}

impl<H> PageDisposer<H> {
    /// A slot that holds nothing, as before any page has been rendered.
    pub fn new() -> (disposer: PageDisposer<H>)
        ensures
            disposer@.is_none(),
    {
        PageDisposer { current: None }
    }

    /// Takes the handle that is held out of the slot, for the caller to dispose
    /// of it. The slot is empty afterwards.
    #[must_use]
    pub fn retire(&mut self) -> (retired: Option<H>)
        ensures
            final(self)@ == retiring(old(self)@).held,
            retired == retiring(old(self)@).retired,
    {
        self.current.take()
    }

    /// Installs `handle`. A handle that was still held is displaced and handed
    /// back; after [`PageDisposer::retire`] there is none.
    #[must_use]
    pub fn install(&mut self, handle: H) -> (displaced: Option<H>)
        ensures
            final(self)@ == installing(old(self)@, handle).held,
            displaced == installing(old(self)@, handle).retired,
    {
        let mut held = Some(handle);
        core::mem::swap(&mut self.current, &mut held);
        held
    }

    /// Replaces the handle that is held by `new_disposer`: takes the old handle
    /// out of the slot, has `dispose` dispose of it, and only then installs the
    /// new one. While `dispose` runs the slot holds neither handle. If nothing
    /// was held, `dispose` is not called.
    ///
    /// This must not be called from inside the scope that the old handle stands
    /// for.
    pub fn update<F: FnOnce(H)>(&mut self, new_disposer: H, dispose: F)
        requires
            old(self)@ matches Some(handle) ==> dispose.requires((handle,)),
        ensures
            final(self)@ == updated(old(self)@, new_disposer).held,
            updated(old(self)@, new_disposer).retired matches Some(handle) ==> dispose.ensures(
                (handle,),
                (),
            ),
    {
        let retired = self.retire();
        match retired {
            Some(old_disposer) => {
                dispose(old_disposer);
            },
            None => {},
        }
        // The slot was emptied above, so that the installation displaces nothing.
        let displaced = self.install(new_disposer);
        assert(displaced.is_none());
    }
}

/// An update empties the slot before it installs: between the two steps nothing
/// is held, the installation displaces nothing, and all in all the new handle is
/// held and the old one retired.
pub proof fn lemma_update_empties_before_it_installs<H>(held: Option<H>, handle: H)
    ensures
        retiring(held).held.is_none(),
        retiring(held).retired == held,
        installing(retiring(held).held, handle).retired.is_none(),
        updated(held, handle) == (Handoff { held: Some(handle), retired: held }),
{
}

/// Two updates of an empty slot retire the first handle, once, and not the
/// second; the second is retired by a third update, and by nothing before it.
pub proof fn lemma_handle_retired_by_next_update<H>(first: H, second: H, third: H)
    ensures
        updated_all(None, seq![first]) == (Some(first), Seq::<H>::empty()),
        updated_all(None, seq![first, second]) == (Some(second), seq![first]),
        updated_all(None, seq![first, second, third]) == (Some(third), seq![first, second]),
{
    lemma_updates_retire_all_but_last(None, seq![first]);
    lemma_updates_retire_all_but_last(None, seq![first, second]);
    lemma_updates_retire_all_but_last(None, seq![first, second, third]);
    assert(seq![first].drop_last() =~= Seq::<H>::empty());
    assert(seq![first, second].drop_last() =~= seq![first]);
    assert(seq![first, second, third].drop_last() =~= seq![first, second]);
}

/// After any series of updates the slot holds the last handle, and every handle
/// before it has been retired exactly once, in the order of installation: first
/// the handle that was held at the start, if there was one, then each handle at
/// the update that followed its own.
pub proof fn lemma_updates_retire_all_but_last<H>(held: Option<H>, handles: Seq<H>)
    requires
        handles.len() > 0,
    ensures
        updated_all(held, handles).0 == Some(handles.last()),
        updated_all(held, handles).1 == match held {
            Some(handle) => seq![handle] + handles.drop_last(),
            None => handles.drop_last(),
        },
    decreases handles.len(),
{
    let before = handles.drop_last();
    if before.len() == 0 {
        assert(updated_all(held, before) == (held, Seq::<H>::empty()));
        match held {
            Some(handle) => {
                assert(Seq::<H>::empty().push(handle) =~= seq![handle] + before);
            },
            None => {
                assert(Seq::<H>::empty() =~= before);
            },
        }
    } else {
        lemma_updates_retire_all_but_last(held, before);
        match held {
            Some(handle) => {
                assert((seq![handle] + before.drop_last()).push(before.last()) =~= seq![handle]
                    + before);
            },
            None => {
                assert(before.drop_last().push(before.last()) =~= before);
            },
        }
    }
}

} // verus!
