//! What holds of the wrappers across calls, stated over the spec functions
//! that the contracts of their operations use.

use vstd::prelude::*;
use crate::error::RefError;
use crate::exclusive::OwningRefMut;
use crate::owner::{Owner, OwnerMut};
use crate::shared::OwningRef;
use crate::span::{lemma_window_of_window, Span};

verus! {

/// A wrapper that holds `owner` and refers to all of its items is valid,
/// and what it reads is what `owner` stores, item for item. The target is
/// a function of the owner's contents and the window, so it is the same
/// wherever the wrapper has been moved to.
pub proof fn lemma_fresh_reference_reads_what_was_stored<O: Owner>(owner: O, r: OwningRef<O>)
    requires
        owner.contents().len() <= usize::MAX,
        r.owner() == owner,
        r.span() == Span::whole(owner.contents().len() as usize),
    ensures
        r.wf(),
        r.target() == owner.contents(),
{
}

/// The same of a mutable wrapper.
pub proof fn lemma_fresh_mut_reference_reads_what_was_stored<O: OwnerMut>(
    owner: O,
    r: OwningRefMut<O>,
)
    requires
        owner.contents().len() <= usize::MAX,
        r.owner() == owner,
        r.span() == Span::whole(owner.contents().len() as usize),
    ensures
        r.wf(),
        r.target() == owner.contents(),
{
}

/// Narrowing is sound. Where a valid wrapper was narrowed to `inner`, the
/// new wrapper is valid and holds the same owner, so what it points at
/// lives as long as it does, and it reads the owner's contents as they
/// are, at the places that `inner` picked from the old target.
pub proof fn lemma_narrowed_reference_reads_owner<O: Owner>(
    before: OwningRef<O>,
    inner: Span,
    after: OwningRef<O>,
)
    requires
        before.wf(),
        before.narrows_to(inner, Ok(after)),
    ensures
        after.wf(),
        after.owner() == before.owner(),
        after.span().start >= before.span().start,
        after.span().end() <= before.span().end(),
        after.target().len() == inner.len,
        forall|i: int|
            0 <= i < inner.len ==> #[trigger] after.target()[i] == before.target()[inner.start + i]
                && after.target()[i] == before.owner().contents()[before.span().start
                + inner.start + i],
{
    lemma_window_of_window(before.owner().contents(), before.span(), inner);
}

/// The same of a mutable wrapper that was narrowed and stayed mutable.
pub proof fn lemma_narrowed_mut_reference_reads_owner<O: OwnerMut>(
    before: OwningRefMut<O>,
    inner: Span,
    after: OwningRefMut<O>,
)
    requires
        before.wf(),
        before.narrows_to(inner, Ok(after)),
    ensures
        after.wf(),
        after.owner() == before.owner(),
        after.span().start >= before.span().start,
        after.span().end() <= before.span().end(),
        after.target().len() == inner.len,
        forall|i: int|
            0 <= i < inner.len ==> #[trigger] after.target()[i] == before.target()[inner.start + i]
                && after.target()[i] == before.owner().contents()[before.span().start
                + inner.start + i],
{
    lemma_window_of_window(before.owner().contents(), before.span(), inner);
}

/// The same of a mutable wrapper that was narrowed and made shared.
pub proof fn lemma_narrowed_shared_reference_reads_owner<O: OwnerMut>(
    before: OwningRefMut<O>,
    inner: Span,
    after: OwningRef<O>,
)
    requires
        before.wf(),
        before.narrows_to_shared(inner, Ok(after)),
    ensures
        after.wf(),
        after.owner() == before.owner(),
        after.span().start >= before.span().start,
        after.span().end() <= before.span().end(),
        after.target().len() == inner.len,
        forall|i: int|
            0 <= i < inner.len ==> #[trigger] after.target()[i] == before.target()[inner.start + i]
                && after.target()[i] == before.owner().contents()[before.span().start
                + inner.start + i],
{
    lemma_window_of_window(before.owner().contents(), before.span(), inner);
}

/// Narrowing never fails on a window that lies inside the target, and
/// always fails on one that does not.
pub proof fn lemma_narrowing_succeeds_iff_inside<O: Owner>(
    before: OwningRef<O>,
    inner: Span,
    r: Result<OwningRef<O>, RefError>,
)
    requires
        before.wf(),
        before.narrows_to(inner, r),
    ensures
        r is Ok <==> inner.fits(before.target().len()),
        r is Err ==> r == Err::<OwningRef<O>, RefError>(RefError::NotDerived),
{
}

/// A write through a mutable wrapper stays in its target. Where item `i`
/// of the target was replaced by `x`, the wrapper is still valid, its
/// window has not moved, the owner has as many items as before, and every
/// item of the owner outside the window is the one it was.
pub proof fn lemma_write_stays_in_target<O: OwnerMut>(
    before: OwningRefMut<O>,
    after: OwningRefMut<O>,
    i: int,
    x: O::Item,
)
    requires
        before.wf(),
        0 <= i < before.span().len,
        after.span() == before.span(),
        after.owner().contents() == before.owner().contents().update(before.span().start + i, x),
    ensures
        after.wf(),
        after.owner().contents().len() == before.owner().contents().len(),
        after.target() == before.target().update(i, x),
        forall|j: int|
            0 <= j < before.owner().contents().len() && !(before.span().start <= j
                < before.span().end()) ==> #[trigger] after.owner().contents()[j]
                == before.owner().contents()[j],
{
}

} // verus!
