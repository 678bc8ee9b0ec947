//! Windows of indices, the form in which a dependent reference is kept.

use vstd::prelude::*;

verus! {

/// The window of `len` consecutive items that begins at index `start`.
///
/// Handed to a wrapper, a span is read relative to something: to the
/// current target when narrowing, to the owner's contents when the
/// projection was shown the owner.
#[derive(Clone, Copy, Debug, PartialEq, Eq, Structural)]
pub struct Span {
    pub start: usize,
    pub len: usize,
}

/// The items of `items` that the window `w` selects.
pub open spec fn window<T>(items: Seq<T>, w: Span) -> Seq<T> {
    items.subrange(w.start as int, w.start + w.len)
}

impl Span {
    /// The index just past the last item of the window.
    pub open spec fn end(self) -> int {
        self.start + self.len
    }

    /// Whether the window lies inside a sequence of `n` items.
    pub open spec fn fits(self, n: nat) -> bool {
        self.end() <= n
    }

    /// The window over all of `n` items.
    pub open spec fn whole(n: usize) -> Span {
        Span { start: 0, len: n }
    }

    /// This window, read relative to `outer`, as a window of what `outer`
    /// itself is a window of.
    pub open spec fn within(self, outer: Span) -> Span {
        Span { start: (outer.start + self.start) as usize, len: self.len }
    }

    /// Whether `within(outer)` is defined: this window lies inside `outer`,
    /// and `outer` ends at an index that a `usize` can hold.
    pub open spec fn nests_in(self, outer: Span) -> bool {
        self.fits(outer.len as nat) && outer.end() <= usize::MAX
    }

    pub fn new(start: usize, len: usize) -> (s: Span)
        ensures
            s == (Span { start, len }),
    {
        Span { start, len }
    }

    /// The window over all of `n` items.
    pub fn covering(n: usize) -> (s: Span)
        ensures
            s == Span::whole(n),
    {
        Span { start: 0, len: n }
    }

    /// Tests the window against a length, without overflow.
    pub fn fits_in(&self, n: usize) -> (b: bool)
        ensures
            b == self.fits(n as nat),
    {
        self.start <= n && self.len <= n - self.start
    }

    /// Re-bases the window from `outer` to what `outer` is a window of.
    pub fn rebase(&self, outer: &Span) -> (r: Option<Span>)
        ensures
            r == if self.nests_in(*outer) {
                Some(self.within(*outer))
            } else {
                None::<Span>
            },
    {
        if !self.fits_in(outer.len) {
            return None;
        }
        match outer.start.checked_add(outer.len) {
            Some(_) => Some(Span { start: outer.start + self.start, len: self.len }),
            None => None,
        }
    }
}

/// A window of a window is a window: taking `inner` out of what `outer`
/// selects gives the items that `inner.within(outer)` selects directly, and
/// that window lies inside `items` as `outer` does.
pub proof fn lemma_window_of_window<T>(items: Seq<T>, outer: Span, inner: Span)
    requires
        outer.fits(items.len()),
        inner.nests_in(outer),
    ensures
        inner.within(outer).fits(items.len()),
        inner.within(outer).start >= outer.start,
        inner.within(outer).end() <= outer.end(),
        window(items, inner.within(outer)) == window(window(items, outer), inner),
{
}

} // verus!
