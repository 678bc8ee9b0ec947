//! Owning references: an owner bundled with a reference into what it owns.
//!
//! A plain reference cannot outlive the local variable that holds its owner.
//! The wrappers of this crate keep both in one value that can be moved,
//! stored and returned. The reference is kept as a [`Span`], a window of
//! indices into the owner's contents that is resolved on every access, so
//! it cannot dangle: every operation keeps the window inside the contents
//! of the owner that the wrapper holds, and no operation hands out the
//! owner for mutation while a window into it is alive.
//!
//! - [`OwningRef`] holds a shared reference, [`OwningRefMut`] an exclusive
//!   one that can be given up for a shared one.
//! - [`Owner`] is what both ask of an owner, [`OwnerMut`] what the mutable
//!   wrapper asks in addition. Vectors and boxes are both, and
//!   reference-counted pointers are owners. [`WithCells`] marks an owner
//!   whose items hold internally-mutable cells.
//! - [`laws`] states what holds across calls.
//! - [`misuse`] runs the sequences that break a wrapper built on raw
//!   pointers, and shows what these wrappers answer.

pub mod error;
pub mod exclusive;
pub mod laws;
pub mod misuse;
pub mod owner;
pub mod shared;
pub mod span;

pub use error::RefError;
pub use exclusive::OwningRefMut;
pub use owner::{NoCells, Owner, OwnerMut, WithCells};
pub use shared::OwningRef;
pub use span::Span;
