//! Protection of secret material while it is held in memory: byte buffers and values that
//! compare without revealing where they differ, render without revealing their contents, and
//! are overwritten with zero bytes when they are given up.
//!
//! The library holds the values, their states and the order of the steps. Locking pages in
//! memory is the operating system's work and is done by whoever holds the values: a guarded
//! key is told how the attempt to lock its storage went, and a value that is given up hands
//! its wiped storage back to be unlocked.

use vstd::prelude::*;

pub mod bytes;
pub mod compare;
pub mod seckey;
pub mod tempkey;
pub mod zerosafe;

pub use bytes::Bytes;
pub use seckey::{LockState, SecKey};
pub use tempkey::TempKey;
pub use zerosafe::ZeroSafe;

verus! {

/// Overwrites the whole representation of `t` with zero bytes, whatever it held.
pub fn zero<T: ?Sized + ZeroSafe>(t: &mut T)
    ensures
        final(t).repr() == zerosafe::zeros(old(t).repr().len()),
{
    t.wipe();
}

} // verus!
