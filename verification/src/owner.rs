//! What a wrapper asks of the value that owns the referenced items.

use vstd::prelude::*;
use std::rc::Rc;
use std::sync::Arc;

verus! {

/// Types that hold no internally-mutable cell: nothing in a value can
/// change while only shared references to it exist.
///
/// It is implemented here for the plain types of the language and for the
/// containers of such. Implement it for a type of your own only if none of
/// its fields holds a cell.
pub trait NoCells {
}

impl NoCells for () {
}

impl NoCells for bool {
}

impl NoCells for char {
}

impl NoCells for u8 {
}

impl NoCells for u16 {
}

impl NoCells for u32 {
}

impl NoCells for u64 {
}

impl NoCells for u128 {
}

impl NoCells for usize {
}

impl NoCells for i8 {
}

impl NoCells for i16 {
}

impl NoCells for i32 {
}

impl NoCells for i64 {
}

impl NoCells for i128 {
}

impl NoCells for isize {
}

impl NoCells for String {
}

impl<T: NoCells> NoCells for Option<T> {
}

impl<T: NoCells> NoCells for Box<T> {
}

impl<T: NoCells> NoCells for Vec<T> {
}

impl<T: NoCells> NoCells for Rc<T> {
}

impl<T: NoCells> NoCells for Arc<T> {
}

impl<A: NoCells, B: NoCells> NoCells for (A, B) {
}

/// A value that owns a run of items in storage of its own.
///
/// The wrappers address the items by index, so an implementor only has to
/// hand out its items in one fixed order, and to say whether they hold
/// internally-mutable cells. An owner that says so is never shown to a
/// caller while a window into it is alive: what is written through a cell
/// changes what the window selects, behind the back of whoever holds the
/// window.
pub trait Owner: Sized {
    type Item;

    /// The items that the owner exposes, in order.
    spec fn contents(&self) -> Seq<Self::Item>;

    /// Whether values of this type hold internally-mutable cells.
    spec fn holds_cells() -> bool;

    /// Reports `holds_cells` at run time.
    fn declares_cells() -> (b: bool)
        ensures
            b == Self::holds_cells(),
    ;

    /// All items, as a slice.
    fn items(&self) -> (s: &[Self::Item])
        ensures
            s@ == self.contents(),
    ;
}

/// An owner that also gives exclusive access to its items, as a mutable
/// wrapper needs it.
pub trait OwnerMut: Owner {
    /// Exclusive access to the item at index `i`. Whatever is written
    /// through it replaces that item and no other.
    fn item_mut(&mut self, i: usize) -> (x: &mut Self::Item)
        requires
            i < old(self).contents().len(),
        ensures
            *x == old(self).contents()[i as int],
            final(self).contents() == old(self).contents().update(i as int, *final(x)),
    ;
}

/// Taken on trust from the documentation of the standard library:
/// `core::slice::from_ref` views one value as a slice of length one,
/// without copying it, so the slice holds that value and nothing else.
pub assume_specification<T>[ core::slice::from_ref::<T> ](s: &T) -> (r: &[T])
    ensures
        r@ == seq![*s],
;

/// A vector owns its elements on the heap.
impl<T: NoCells> Owner for Vec<T> {
    type Item = T;

    open spec fn contents(&self) -> Seq<T> {
        self@
    }

    open spec fn holds_cells() -> bool {
        false
    }

    fn declares_cells() -> (b: bool) {
        false
    }

    fn items(&self) -> (s: &[T]) {
        self.as_slice()
    }
}

impl<T: NoCells> OwnerMut for Vec<T> {
    fn item_mut(&mut self, i: usize) -> (x: &mut T) {
        &mut self[i]
    }
}

/// A box owns its one value on the heap.
impl<T: NoCells> Owner for Box<T> {
    type Item = T;

    open spec fn contents(&self) -> Seq<T> {
        seq![**self]
    }

    open spec fn holds_cells() -> bool {
        false
    }

    fn declares_cells() -> (b: bool) {
        false
    }

    fn items(&self) -> (s: &[T]) {
        core::slice::from_ref(&**self)
    }
}

impl<T: NoCells> OwnerMut for Box<T> {
    fn item_mut(&mut self, i: usize) -> (x: &mut T) {
        &mut **self
    }
}

/// A reference-counted pointer owns its one value jointly with its
/// clones. The value lives until the last of them is dropped, and no
/// holder can write to it.
impl<T: NoCells> Owner for Rc<T> {
    type Item = T;

    open spec fn contents(&self) -> Seq<T> {
        seq![**self]
    }

    open spec fn holds_cells() -> bool {
        false
    }

    fn declares_cells() -> (b: bool) {
        false
    }

    fn items(&self) -> (s: &[T]) {
        core::slice::from_ref(&**self)
    }
}

/// The same of an atomically reference-counted pointer.
impl<T: NoCells> Owner for Arc<T> {
    type Item = T;

    open spec fn contents(&self) -> Seq<T> {
        seq![**self]
    }

    open spec fn holds_cells() -> bool {
        false
    }

    fn declares_cells() -> (b: bool) {
        false
    }

    fn items(&self) -> (s: &[T]) {
        core::slice::from_ref(&**self)
    }
}

/// An owner whose items may hold internally-mutable cells.
///
/// It wraps a vector or a box of any item type. The items are those of
/// what it wraps. Only the declaration differs, and with it what the
/// wrappers allow.
#[derive(Debug)]
pub struct WithCells<C>(pub C);

impl<T> Owner for WithCells<Vec<T>> {
    type Item = T;

    open spec fn contents(&self) -> Seq<T> {
        self.0@
    }

    open spec fn holds_cells() -> bool {
        true
    }

    fn declares_cells() -> (b: bool) {
        true
    }

    fn items(&self) -> (s: &[T]) {
        self.0.as_slice()
    }
}

impl<T> OwnerMut for WithCells<Vec<T>> {
    fn item_mut(&mut self, i: usize) -> (x: &mut T) {
        &mut self.0[i]
    }
}

impl<T> Owner for WithCells<Box<T>> {
    type Item = T;

    open spec fn contents(&self) -> Seq<T> {
        seq![*self.0]
    }

    open spec fn holds_cells() -> bool {
        true
    }

    fn declares_cells() -> (b: bool) {
        true
    }

    fn items(&self) -> (s: &[T]) {
        core::slice::from_ref(&*self.0)
    }
}

impl<T> OwnerMut for WithCells<Box<T>> {
    fn item_mut(&mut self, i: usize) -> (x: &mut T) {
        &mut *self.0
    }
}

} // verus!
