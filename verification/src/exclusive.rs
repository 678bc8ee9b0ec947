//! The mutable wrapper: an owner and an exclusive window into it.

use vstd::prelude::*;
use vstd::slice::slice_subrange;
use crate::error::RefError;
use crate::owner::OwnerMut;
use crate::shared::OwningRef;
use crate::span::{lemma_window_of_window, window, Span};

verus! {

/// An owner together with an exclusive reference to some of its items.
///
/// While the wrapper exists, the items are written through it and through
/// nothing else. The owner is never handed out for mutation: to change
/// it, the wrapper is taken apart or given another owner, and either way
/// the old reference is gone with it.
#[derive(Debug)]
pub struct OwningRefMut<O: OwnerMut> {
    owner: O,
    window: Span,
}

impl<O: OwnerMut> OwningRefMut<O> {
    /// The owner that the wrapper holds.
    pub closed spec fn owner(self) -> O {
        self.owner
    }

    /// Where in the owner's contents the reference points.
    pub closed spec fn span(self) -> Span {
        self.window
    }

    /// The reference is valid: its window lies inside the owner's
    /// contents. Every wrapper that this module hands out is valid, and
    /// the wrapper type has no other source.
    pub open spec fn wf(self) -> bool {
        &&& self.span().fits(self.owner().contents().len())
        &&& self.owner().contents().len() <= usize::MAX
    }

    /// The items that the reference points at.
    pub open spec fn target(self) -> Seq<O::Item> {
        window(self.owner().contents(), self.span())
    }

    /// What `narrow` answers to the relative window `inner`.
    pub open spec fn narrows_to(self, inner: Span, r: Result<Self, RefError>) -> bool {
        match r {
            Ok(w) => {
                &&& inner.fits(self.span().len as nat)
                &&& w.wf()
                &&& w.owner() == self.owner()
                &&& w.span() == inner.within(self.span())
                &&& w.target() == window(self.target(), inner)
            },
            Err(e) => !inner.fits(self.span().len as nat) && e == RefError::NotDerived,
        }
    }

    /// What `narrow` followed by `into_shared` answers to the relative
    /// window `inner`.
    pub open spec fn narrows_to_shared(
        self,
        inner: Span,
        r: Result<OwningRef<O>, RefError>,
    ) -> bool {
        match r {
            Ok(w) => {
                &&& inner.fits(self.span().len as nat)
                &&& w.wf()
                &&& w.owner() == self.owner()
                &&& w.span() == inner.within(self.span())
                &&& w.target() == window(self.target(), inner)
            },
            Err(e) => !inner.fits(self.span().len as nat) && e == RefError::NotDerived,
        }
    }

    /// Wraps `owner`, with an exclusive reference to all of its items.
    pub fn new(owner: O) -> (r: Self)
        ensures
            r.wf(),
            r.owner() == owner,
            r.span() == Span::whole(owner.contents().len() as usize),
            r.target() == owner.contents(),
    {
        let n: usize = owner.items().len();
        OwningRefMut { owner, window: Span::covering(n) }
    }

    /// The window that the reference stands for. It lies inside the
    /// owner's contents.
    pub fn window(&self) -> (w: Span)
        ensures
            w == self.span(),
    {
        self.window
    }

    /// Dereferences for reading: the items that the reference points at,
    /// as the owner holds them now.
    pub fn as_slice(&self) -> (s: &[O::Item])
        requires
            self.wf(),
        ensures
            s@ == self.target(),
    {
        slice_subrange(self.owner.items(), self.window.start, self.window.start + self.window.len)
    }

    /// Dereferences for writing: exclusive access to item `i` of the
    /// target, or `None` where the target has no such item.
    ///
    /// What is written replaces that one item. The window stays where it
    /// is, and the owner keeps every other item and its length.
    pub fn get_mut(&mut self, i: usize) -> (r: Option<&mut O::Item>)
        requires
            old(self).wf(),
        ensures
            final(self).wf(),
            final(self).span() == old(self).span(),
            match r {
                Some(x) => {
                    &&& i < old(self).span().len
                    &&& *x == old(self).target()[i as int]
                    &&& final(self).owner().contents() == old(self).owner().contents().update(
                        old(self).span().start + i,
                        *final(x),
                    )
                    &&& final(self).target() == old(self).target().update(i as int, *final(x))
                },
                None => i >= old(self).span().len && final(self).owner() == old(self).owner(),
            },
    {
        if i < self.window.len {
            Some(self.owner.item_mut(self.window.start + i))
        } else {
            None
        }
    }

    /// Narrows the reference to the part `inner` of its target, `inner`
    /// being read relative to the target. A window that does not lie
    /// inside the target is refused.
    pub fn narrow(self, inner: Span) -> (r: Result<Self, RefError>)
        requires
            self.wf(),
        ensures
            self.narrows_to(inner, r),
    {
        match inner.rebase(&self.window) {
            Some(window) => {
                proof {
                    lemma_window_of_window(self.owner.contents(), self.window, inner);
                }
                Ok(OwningRefMut { owner: self.owner, window })
            },
            None => Err(RefError::NotDerived),
        }
    }

    /// Gives up exclusivity: the same owner and the same window, shared.
    pub fn into_shared(self) -> (r: OwningRef<O>)
        requires
            self.wf(),
        ensures
            r.wf(),
            r.owner() == self.owner(),
            r.span() == self.span(),
            r.target() == self.target(),
    {
        OwningRef::from_parts(self.owner, self.window)
    }

    /// Narrows the reference to the part of its target that `f` picks and
    /// keeps it exclusive.
    ///
    /// `f` is shown the target and nothing else, and answers with a window
    /// relative to it. The result is that of `narrow` on that window.
    pub fn map_mut<F>(self, f: F) -> (r: Result<Self, RefError>)
        where F: FnOnce(&[O::Item]) -> Span
        requires
            self.wf(),
            forall|s: &[O::Item]| s@ == self.target() ==> f.requires((s,)),
        ensures
            exists|s: &[O::Item], inner: Span|
                s@ == self.target() && f.ensures((s,), inner) && self.narrows_to(inner, r),
    {
        let inner = f(self.as_slice());
        self.narrow(inner)
    }

    /// Narrows the reference to the part of its target that `f` picks and
    /// makes it shared.
    ///
    /// `f` is shown the target and nothing else, and answers with a window
    /// relative to it. The result is that of `narrow` on that window,
    /// followed by `into_shared`.
    pub fn map<F>(self, f: F) -> (r: Result<OwningRef<O>, RefError>)
        where F: FnOnce(&[O::Item]) -> Span
        requires
            self.wf(),
            forall|s: &[O::Item]| s@ == self.target() ==> f.requires((s,)),
        ensures
            exists|s: &[O::Item], inner: Span|
                s@ == self.target() && f.ensures((s,), inner) && self.narrows_to_shared(inner, r),
    {
        let inner = f(self.as_slice());
        match self.narrow(inner) {
            Ok(w) => Ok(w.into_shared()),
            Err(e) => Err(e),
        }
    }

    /// A read-only view of the owner, refused where the owner declares
    /// cells: through a cell the view would write to what the exclusive
    /// reference points at.
    pub fn as_owner(&self) -> (r: Result<&O, RefError>)
        ensures
            r == if O::holds_cells() {
                Err::<&O, RefError>(RefError::CellsExposed)
            } else {
                Ok::<&O, RefError>(&self.owner())
            },
    {
        if O::declares_cells() {
            Err(RefError::CellsExposed)
        } else {
            Ok(&self.owner)
        }
    }

    /// Gives up the reference and returns the owner.
    pub fn into_owner(self) -> (o: O)
        ensures
            o == self.owner(),
    {
        self.owner
    }

    /// Exchanges the owner. The old reference goes with the old owner,
    /// which is returned, and the wrapper that comes back refers to all
    /// items of the new one.
    pub fn replace_owner(self, owner: O) -> (r: (Self, O))
        ensures
            r.0.wf(),
            r.0.owner() == owner,
            r.0.span() == Span::whole(owner.contents().len() as usize),
            r.0.target() == owner.contents(),
            r.1 == self.owner(),
    {
        (OwningRefMut::new(owner), self.owner)
    }
}

} // verus!
