//! The classic ways to break an owning reference, written against the
//! wrappers of this crate. Each function runs one such sequence and returns
//! what the caller gets to see: a value read through a reference that is
//! still valid, or the refusal.

use vstd::prelude::*;
use crate::error::RefError;
use crate::exclusive::OwningRefMut;
use crate::owner::{NoCells, Owner, WithCells};
use crate::shared::OwningRef;
use crate::span::Span;

verus! {

/// Replaces the owner under a mutable wrapper, then reads.
///
/// There is no mutable access to the owner while the reference is alive.
/// The owner is exchanged as a whole, the old reference goes with the old
/// owner, and the read sees what the new owner holds.
pub fn ref_mut_as_owner_mut() -> (read: Result<i32, RefError>)
    ensures
        read == Ok::<i32, RefError>(9),
{
    let ow_ref = OwningRefMut::new(Box::new(5));
    let (ow_ref, _old_owner) = ow_ref.replace_owner(Box::new(9));
    Ok(ow_ref.as_slice()[0])
}

/// Maps a shared wrapper to the owner that the projection is shown, then
/// reads.
///
/// The projection answers with a window of the owner's contents, which
/// stay where they are when the wrapper moves, so the read sees the value
/// that was stored.
pub fn unstable_address() -> (read: Result<i32, RefError>)
    ensures
        read == Ok::<i32, RefError>(5),
{
    let ow_ref = OwningRef::new(Box::new(5));
    let new_ow_ref = ow_ref.map_with_owner(
        |owner: &Box<i32>, _my_ref: &[i32]| -> (all: Span)
            ensures
                all.start == 0 && all.len == owner.contents().len()
        {
            Span::covering(owner.items().len())
        },
    )?;
    Ok(new_ow_ref.as_slice()[0])
}

/// Asks a mutable wrapper for its owner where the owner declares cells.
///
/// Through a cell the owner's view could replace what the exclusive
/// reference points at, so the view is refused.
pub fn ref_mut_as_owner() -> (read: Result<i32, RefError>)
    ensures
        read == Err::<i32, RefError>(RefError::CellsExposed),
{
    let ow_ref = OwningRefMut::new(WithCells(Box::new(5)));
    let new_ow_ref = ow_ref.map_mut(
        |cell: &[i32]| -> (all: Span)
            ensures
                all.start == 0 && all.len == cell@.len()
        {
            Span::covering(cell.len())
        },
    )?;
    let _owner = new_ow_ref.as_owner()?;
    Ok(new_ow_ref.as_slice()[0])
}

/// Converts a mutable wrapper to a shared one, then asks that for its
/// owner, where the owner declares cells.
///
/// The conversion opens no way to the owner that the mutable wrapper did
/// not have: the view is refused as before.
pub fn ref_mut_to_ref() -> (read: Result<i32, RefError>)
    ensures
        read == Err::<i32, RefError>(RefError::CellsExposed),
{
    let ow_ref = OwningRefMut::new(WithCells(Box::new(5)));
    let new_ow_ref = ow_ref.map(
        |cell: &[i32]| -> (all: Span)
            ensures
                all.start == 0 && all.len == cell@.len()
        {
            Span::covering(cell.len())
        },
    )?;
    let _owner = new_ow_ref.as_owner()?;
    Ok(new_ow_ref.as_slice()[0])
}

/// Converts a mutable wrapper to a shared one, then maps that with a
/// projection that wants both the owner and the old reference, where the
/// owner declares cells.
///
/// The projection would hold a way to write and a reference to read the
/// same item. It is not run, and the call is refused.
pub fn ref_mut_to_ref_2() -> (read: Result<i32, RefError>)
    ensures
        read == Err::<i32, RefError>(RefError::CellsExposed),
{
    let ow_ref = OwningRefMut::new(WithCells(Box::new(0)));
    let new_ow_ref = ow_ref.map(
        |cell: &[i32]| -> (all: Span)
            ensures
                all.start == 0 && all.len == cell@.len()
        {
            Span::covering(cell.len())
        },
    )?;
    let mapped = new_ow_ref.map_with_owner(
        |_owner: &WithCells<Box<i32>>, x: &[i32]| -> (all: Span)
            ensures
                all.start == 0 && all.len == x@.len()
        {
            Span::covering(x.len())
        },
    )?;
    Ok(mapped.as_slice()[0])
}

/// Maps a wrapper over an empty owner with a projection that ignores what
/// it is shown and answers for a slice it captured.
///
/// The answer is read against the wrapper's target, which is empty. So it
/// is refused as soon as the captured slice has an item, and with no item
/// it selects nothing.
pub fn tricky_map_unsoundness<T: NoCells>(input: &[T]) -> (r: Result<OwningRef<Vec<T>>, RefError>)
    ensures
        input@.len() > 0 ==> r == Err::<OwningRef<Vec<T>>, RefError>(RefError::NotDerived),
        input@.len() == 0 ==> r is Ok && r->Ok_0.owner()@ == Seq::<T>::empty()
            && r->Ok_0.span() == Span::whole(0),
{
    let ow_ref1: OwningRef<Vec<T>> = OwningRef::new(Vec::new());
    let ow_ref2 = ow_ref1.map(
        |_x: &[T]| -> (captured: Span)
            ensures
                captured.start == 0 && captured.len == input@.len()
        {
            Span::covering(input.len())
        },
    )?;
    ow_ref2.map(
        |s: &[T]| -> (all: Span)
            ensures
                all.start == 0 && all.len == s@.len()
        {
            Span::covering(s.len())
        },
    )
}

} // verus!
