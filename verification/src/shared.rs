//! The shared wrapper: an owner and a read-only window into it.

use vstd::prelude::*;
use vstd::slice::slice_subrange;
use crate::error::RefError;
use crate::owner::Owner;
use crate::span::{lemma_window_of_window, window, Span};

verus! {

/// An owner together with a shared reference to some of its items.
///
/// The reference is a window into the owner's contents. It always lies
/// inside them, wherever the wrapper is moved, and the owner is the one
/// the wrapper was made with until the wrapper is taken apart.
#[derive(Debug)]
pub struct OwningRef<O: Owner> {
    owner: O,
    window: Span,
}

impl<O: Owner> OwningRef<O> {
    #[verifier::type_invariant]
    spec fn window_in_owner(self) -> bool {
        self.window.fits(self.owner.contents().len()) && self.owner.contents().len() <= usize::MAX
    }

    /// The owner that the wrapper holds.
    pub closed spec fn owner(self) -> O {
        self.owner
    }

    /// Where in the owner's contents the reference points.
    pub closed spec fn span(self) -> Span {
        self.window
    }

    /// The reference is valid: its window lies inside the owner's
    /// contents. This holds of every wrapper that exists at run time.
    pub open spec fn wf(self) -> bool {
        &&& self.span().fits(self.owner().contents().len())
        &&& self.owner().contents().len() <= usize::MAX
    }

    /// The items that the reference points at.
    pub open spec fn target(self) -> Seq<O::Item> {
        window(self.owner().contents(), self.span())
    }

    /// What `narrow` answers to the relative window `inner`.
    pub open spec fn narrows_to(self, inner: Span, r: Result<Self, RefError>) -> bool {
        match r {
            Ok(w) => {
                &&& inner.fits(self.span().len as nat)
                &&& w.wf()
                &&& w.owner() == self.owner()
                &&& w.span() == inner.within(self.span())
                &&& w.target() == window(self.target(), inner)
            },
            Err(e) => !inner.fits(self.span().len as nat) && e == RefError::NotDerived,
        }
    }

    /// What `reselect` answers to the window `chosen` of the owner's
    /// contents.
    pub open spec fn reselects_to(self, chosen: Span, r: Result<Self, RefError>) -> bool {
        match r {
            Ok(w) => {
                &&& chosen.fits(self.owner().contents().len())
                &&& w.wf()
                &&& w.owner() == self.owner()
                &&& w.span() == chosen
            },
            Err(e) => !chosen.fits(self.owner().contents().len()) && e == RefError::NotDerived,
        }
    }

    /// Wraps `owner`, with a reference to all of its items.
    pub fn new(owner: O) -> (r: Self)
        ensures
            r.wf(),
            r.owner() == owner,
            r.span() == Span::whole(owner.contents().len() as usize),
            r.target() == owner.contents(),
    {
        let n: usize = owner.items().len();
        OwningRef { owner, window: Span::covering(n) }
    }

    /// Makes the wrapper that `OwningRefMut::into_shared` returns.
    pub(crate) fn from_parts(owner: O, window: Span) -> (r: Self)
        requires
            window.fits(owner.contents().len()),
            owner.contents().len() <= usize::MAX,
        ensures
            r.wf(),
            r.owner() == owner,
            r.span() == window,
    {
        OwningRef { owner, window }
    }

    /// The window that the reference stands for. It lies inside the
    /// owner's contents.
    pub fn window(&self) -> (w: Span)
        ensures
            w == self.span(),
            self.wf(),
    {
        proof {
            use_type_invariant(self);
        }
        self.window
    }

    /// Dereferences: the items that the reference points at, as the owner
    /// holds them now.
    pub fn as_slice(&self) -> (s: &[O::Item])
        ensures
            s@ == self.target(),
    {
        proof {
            use_type_invariant(self);
        }
        slice_subrange(self.owner.items(), self.window.start, self.window.start + self.window.len)
    }

    /// Narrows the reference to the part `inner` of its target, `inner`
    /// being read relative to the target. A window that does not lie
    /// inside the target is refused.
    pub fn narrow(self, inner: Span) -> (r: Result<Self, RefError>)
        ensures
            self.narrows_to(inner, r),
    {
        proof {
            use_type_invariant(&self);
        }
        match inner.rebase(&self.window) {
            Some(window) => {
                proof {
                    lemma_window_of_window(self.owner.contents(), self.window, inner);
                }
                Ok(OwningRef { owner: self.owner, window })
            },
            None => Err(RefError::NotDerived),
        }
    }

    /// Points the reference at the window `chosen` of the owner's
    /// contents. A window that does not lie inside them is refused.
    pub fn reselect(self, chosen: Span) -> (r: Result<Self, RefError>)
        ensures
            self.reselects_to(chosen, r),
    {
        let n: usize = self.owner.items().len();
        if chosen.fits_in(n) {
            Ok(OwningRef { owner: self.owner, window: chosen })
        } else {
            Err(RefError::NotDerived)
        }
    }

    /// Narrows the reference to the part of its target that `f` picks.
    ///
    /// `f` is shown the target and nothing else, and answers with a window
    /// relative to it. The result is that of `narrow` on that window.
    pub fn map<F>(self, f: F) -> (r: Result<Self, RefError>)
        where F: FnOnce(&[O::Item]) -> Span
        requires
            forall|s: &[O::Item]| s@ == self.target() ==> f.requires((s,)),
        ensures
            exists|s: &[O::Item], inner: Span|
                s@ == self.target() && f.ensures((s,), inner) && self.narrows_to(inner, r),
    {
        let inner = f(self.as_slice());
        self.narrow(inner)
    }

    /// Points the reference at the items that `f` picks from the owner.
    ///
    /// `f` is shown the owner where the wrapper holds it, and the target,
    /// and answers with a window of the owner's contents. The result is
    /// that of `reselect` on that window. An owner that declares cells is
    /// shown to nobody: the call is refused and `f` is not run.
    pub fn map_with_owner<F>(self, f: F) -> (r: Result<Self, RefError>)
        where F: FnOnce(&O, &[O::Item]) -> Span
        requires
            !O::holds_cells() ==> forall|o: &O, s: &[O::Item]|
                *o == self.owner() && s@ == self.target() ==> f.requires((o, s)),
        ensures
            O::holds_cells() ==> r == Err::<Self, RefError>(RefError::CellsExposed),
            !O::holds_cells() ==> exists|o: &O, s: &[O::Item], chosen: Span|
                *o == self.owner() && s@ == self.target() && f.ensures((o, s), chosen)
                    && self.reselects_to(chosen, r),
    {
        if O::declares_cells() {
            return Err(RefError::CellsExposed);
        }
        let chosen = f(&self.owner, self.as_slice());
        self.reselect(chosen)
    }

    /// A read-only view of the owner, refused where the owner declares
    /// cells.
    pub fn as_owner(&self) -> (r: Result<&O, RefError>)
        ensures
            r == if O::holds_cells() {
                Err::<&O, RefError>(RefError::CellsExposed)
            } else {
                Ok::<&O, RefError>(&self.owner())
            },
    {
        if O::declares_cells() {
            Err(RefError::CellsExposed)
        } else {
            Ok(&self.owner)
        }
    }

    /// Gives up the reference and returns the owner.
    pub fn into_owner(self) -> (o: O)
        ensures
            o == self.owner(),
    {
        self.owner
    }
}

} // verus!
