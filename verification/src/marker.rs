//! Lock-state markers of the secret container.

use crate::allocator::ffi::Protection;
use vstd::prelude::*;

verus! {

/// A lock state of the secret container, known at compile time.
pub trait LockState {
    /// What the pages of a container in this state allow.
    spec fn protection() -> Protection;
}

/// Marker of a container whose region is read-only: its contents cannot be
/// modified.
pub struct Locked;

/// Marker of a container whose region is readable and writable.
pub struct Unlocked;

impl LockState for Locked {
    open spec fn protection() -> Protection {
        Protection::ReadOnly
    }
}

impl LockState for Unlocked {
    open spec fn protection() -> Protection {
        Protection::ReadWrite
    }
}

} // verus!
