//! An owning, non-null address handle.

use core::marker::PhantomData;
use vstd::prelude::*;

verus! {

/// The address of a `T` that is never null and whose possessor owns the
/// referent.
pub struct Unique<T> {
    pointer: usize,
    marker: PhantomData<T>,
}

impl<T> View for Unique<T> {
    type V = usize;

    closed spec fn view(&self) -> usize {
        self.pointer
    }
}

impl<T> Unique<T> {
    #[verifier::type_invariant]
    spec fn non_null(self) -> bool {
        self.pointer != 0
    }

    /// Creates a handle that is dangling, but well-aligned: its address is the
    /// alignment of `T`.
    pub fn dangling() -> (unique: Unique<T>)
        ensures
            unique@ == vstd::layout::align_of::<T>(),
    {
        broadcast use vstd::layout::align_nonzero;

        Unique { pointer: core::mem::align_of::<T>(), marker: PhantomData }
    }

    /// Creates a handle if `addr` is not null.
    pub fn new(addr: usize) -> (unique: Option<Unique<T>>)
        ensures
            unique.is_some() <==> addr != 0,
            unique matches Some(u) ==> u@ == addr,
    {
        if addr != 0 {
            Some(Unique { pointer: addr, marker: PhantomData })
        } else {
            None
        }
    }

    /// Creates a handle for an address that the caller knows not to be null.
    pub fn new_unchecked(addr: usize) -> (unique: Unique<T>)
        requires
            addr != 0,
        ensures
            unique@ == addr,
    {
        Unique { pointer: addr, marker: PhantomData }
    }

    /// The address, which is not null.
    pub fn as_ptr(self) -> (addr: usize)
        ensures
            addr == self@,
            addr != 0,
    {
        proof {
            use_type_invariant(&self);
        }
        self.pointer
    }

    /// The same address as a handle to another type.
    pub fn cast<U>(self) -> (unique: Unique<U>)
        ensures
            unique@ == self@,
    {
        proof {
            use_type_invariant(&self);
        }
        Unique { pointer: self.pointer, marker: PhantomData }
    }
}

impl<T> Clone for Unique<T> {
    fn clone(&self) -> (unique: Unique<T>)
        ensures
            unique@ == self@,
    {
        proof {
            use_type_invariant(self);
        }
        Unique { pointer: self.pointer, marker: PhantomData }
    }
}

impl<T> Copy for Unique<T> {

}

} // verus!
