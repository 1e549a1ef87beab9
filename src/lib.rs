//! A cell that owns one value and lends it out through views and handles.
//!
//! Exclusive access is enforced by Rust's borrowing rules rather than left to the
//! caller: a mutable view or a handle borrows the cell mutably for exactly as
//! long as it is used, and a shared view borrows it shared. The contracts say
//! what each view reads and how a write through it reaches the cell.

use vstd::prelude::*;

pub mod cell;

pub use cell::{lemma_write_then_read, UnsafeRef, UnsafeShared};

verus! {

/// Takes ownership of a value and hands it straight back, forcing a move.
pub fn mv<T>(x: T) -> (r: T)
    ensures
        r == x,
{
    x
}

/// A boolean that cannot be copied or cloned, to show that the cell never
/// duplicates what it holds.
#[derive(Debug)]
pub struct NonCopyBool(pub bool);

} // verus!
