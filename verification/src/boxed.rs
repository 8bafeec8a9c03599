//! The owning secret container: a value together with the region of secret
//! memory that holds it, guarded by a lock state that is part of its type.

use crate::allocator::ffi::{Call, OsError, Protection, Reply};
use crate::allocator::{Operation, Pending, Region, RegionView, SecretAllocator, State};
use crate::marker::{LockState, Locked, Unlocked};
use core::marker::PhantomData;
use vstd::prelude::*;
use vstd::std_specs::cmp::{PartialEqSpec, PartialOrdSpec};

verus! {

/// A secure container for one secret value.
///
/// It owns one region of secret memory. In the `Unlocked` state the region is
/// readable and writable and so is the value; in the `Locked` state the region
/// is read-only and the type offers no way to write. A change of state
/// consumes the container: it comes back in the other state, or unchanged when
/// the kernel refused.
///
/// The container keeps value and region together and decides what the kernel
/// is asked; it does not touch the bytes of the region. A program that wants
/// the secret itself to lie in the region holds a
/// [`Unique`](crate::util::unique::Unique) to it as the value. The region goes
/// back to the kernel by [`SecretBox::release`] alone: a container that is
/// merely dropped leaves its region mapped.
pub struct SecretBox<T, L: LockState = Unlocked> {
    value: T,
    region: Region,
    marker: PhantomData<L>,
}

/// What a [`SecretBox`] is, whatever its lock state: the value it holds and
/// the region it owns.
pub struct SecretBoxView<T> {
    pub value: T,
    pub region: RegionView,
}

impl<T, L: LockState> View for SecretBox<T, L> {
    type V = SecretBoxView<T>;

    open spec fn view(&self) -> SecretBoxView<T> {
        SecretBoxView { value: self.value(), region: self.region() }
    }
}

/// What becomes of a container when the kernel answers the request of a
/// change to `protection` with `reply`: where the kernel agreed, the same
/// value in the same region under the new protection (`Ok`); where it refused,
/// the container as it was (`Err`).
pub open spec fn transition<T>(secret: SecretBoxView<T>, protection: Protection, reply: Reply)
    -> Result<SecretBoxView<T>, SecretBoxView<T>> {
    if reply.is_ok() {
        Ok(SecretBoxView { value: secret.value, region: RegionView { protection, ..secret.region } })
    } else {
        Err(secret)
    }
}

/// Locking an unlocked container and unlocking it again, with the kernel
/// agreeing both times, gives back the container as it was: the same value in
/// the same region, readable and writable.
pub proof fn lemma_lock_unlock_round_trip<T>(secret: SecretBoxView<T>, first: Reply, second: Reply)
    requires
        secret.region.protection == Protection::ReadWrite,
        first.is_ok(),
        second.is_ok(),
    ensures
        transition(secret, Protection::ReadOnly, first) matches Ok(locked) && locked.value
            == secret.value && transition(locked, Protection::ReadWrite, second) == Ok::<
            SecretBoxView<T>,
            SecretBoxView<T>,
        >(secret),
{
}

/// Whatever the kernel answers to a change of protection, the container that
/// comes back holds the value it held; and where the kernel refused, nothing
/// about the container has changed.
pub proof fn lemma_transition_keeps_value<T>(
    secret: SecretBoxView<T>,
    protection: Protection,
    reply: Reply,
)
    ensures
        match transition(secret, protection, reply) {
            Ok(changed) => reply.is_ok() && changed.value == secret.value && changed.region.base
                == secret.region.base && changed.region.len == secret.region.len,
            Err(same) => reply.is_err() && same == secret,
        },
{
}

/// A change of protection does not look at the provider of the region: two
/// containers that hold the same value, in regions of whatever providers, come
/// back alike from the same answer of the kernel.
pub proof fn lemma_transition_ignores_provider<T>(
    one: SecretBoxView<T>,
    other: SecretBoxView<T>,
    protection: Protection,
    reply: Reply,
)
    requires
        one.value == other.value,
    ensures
        match (transition(one, protection, reply), transition(other, protection, reply)) {
            (Ok(a), Ok(b)) => a.value == b.value && a.region.protection == b.region.protection
                && a.region.origin == one.region.origin && b.region.origin
                == other.region.origin,
            (Err(a), Err(b)) => a == one && b == other,
            _ => false,
        },
{
}

impl<T, L: LockState> SecretBox<T, L> {
    /// The value held.
    pub closed spec fn value(&self) -> T {
        self.value
    }

    /// The region owned.
    pub closed spec fn region(&self) -> RegionView {
        self.region@
    }

    /// The protection of the region is the one that the lock state names.
    /// Every container that `new`, `lock` or `unlock` hands out is well-formed.
    pub open spec fn wf(&self) -> bool {
        self.region().protection == L::protection()
    }

    /// The region owned.
    pub fn as_region(&self) -> (region: &Region)
        ensures
            region@ == self.region(),
    {
        &self.region
    }

    /// Read access to the value, in either state.
    pub fn get(&self) -> (value: &T)
        ensures
            *value == self.value(),
    {
        &self.value
    }

    /// Begins the destruction of the container: hands out the value, to be
    /// destructed once write access has been asked for, and the release of
    /// the region by the provider it came from. The release first asks for
    /// write access and ignores a refusal, then zeroes every byte, and only
    /// then gives the pages back.
    pub fn release(self) -> (parts: (T, Pending))
        ensures
            parts.0 == self.value(),
            parts.1@ == State::restoring(self.region()),
            parts.1@.backend() == self.region().origin,
            parts.1@.releasing(),
            parts.1@.holds() == self.region().holdings(),
            parts.1@.call() == (Call::Protect {
                addr: self.region().base,
                len: self.region().len,
                protection: Protection::ReadWrite,
            }),
    {
        let SecretBox { value, region, marker } = self;
        let backend = region.origin();
        (value, backend.dealloc(region))
    }
}

impl<T> SecretBox<T, Unlocked> {
    /// Creates an unlocked container that holds `value` in the region that an
    /// allocation has produced. Where the allocation failed there is no
    /// container, and its error comes back.
    pub fn new(value: T, allocation: Result<Region, OsError>) -> (made: Result<
        SecretBox<T, Unlocked>,
        OsError,
    >)
        requires
            allocation matches Ok(region) ==> region@.protection == Protection::ReadWrite
                && vstd::layout::size_of::<T>() <= region@.len,
        ensures
            match allocation {
                Ok(region) => made matches Ok(secret) && secret.value() == value
                    && secret.region() == region@ && secret.wf(),
                Err(error) => made matches Err(e) && e == error,
            },
    {
        match allocation {
            Ok(region) => Ok(SecretBox { value, region, marker: PhantomData }),
            Err(error) => Err(error),
        }
    }

    /// The request that makes the region read-only.
    pub fn lock_call(&self) -> (call: Call)
        ensures
            call == (Call::Protect {
                addr: self.region().base,
                len: self.region().len,
                protection: Protection::ReadOnly,
            }),
    {
        self.region.origin().make_read_only(&self.region)
    }

    /// Locks the container, given the kernel's answer to [`Self::lock_call`].
    ///
    /// Where the kernel made the region read-only, the container comes back
    /// locked, with the same value in the same region. Where it refused, the
    /// container comes back as it was, intact and usable.
    pub fn lock(self, reply: Reply) -> (locked: Result<SecretBox<T, Locked>, SecretBox<T, Unlocked>>)
        ensures
            locked.is_ok() <==> reply.is_ok(),
            match locked {
                Ok(secret) => transition(self@, Protection::ReadOnly, reply) matches Ok(v) && v
                    == secret@ && secret.wf(),
                Err(secret) => secret == self,
            },
    {
        match reply {
            Ok(_) => {
                let SecretBox { value, region, marker } = self;
                Ok(
                    SecretBox {
                        value,
                        region: region.with_protection(Protection::ReadOnly),
                        marker: PhantomData,
                    },
                )
            },
            Err(_) => Err(self),
        }
    }

    /// Write access to the value, which only the unlocked state offers.
    pub fn get_mut(&mut self) -> (value: &mut T)
        ensures
            *value == old(self).value(),
            final(self).value() == *final(value),
            final(self).region() == old(self).region(),
    {
        &mut self.value
    }
}

impl<T> SecretBox<T, Locked> {
    /// The request that makes the region readable and writable.
    pub fn unlock_call(&self) -> (call: Call)
        ensures
            call == (Call::Protect {
                addr: self.region().base,
                len: self.region().len,
                protection: Protection::ReadWrite,
            }),
    {
        self.region.origin().make_writable(&self.region)
    }

    /// Unlocks the container, given the kernel's answer to
    /// [`Self::unlock_call`].
    ///
    /// Where the kernel made the region writable, the container comes back
    /// unlocked, with the same value in the same region. Where it refused, the
    /// container comes back as it was, intact and still locked.
    pub fn unlock(self, reply: Reply) -> (unlocked: Result<
        SecretBox<T, Unlocked>,
        SecretBox<T, Locked>,
    >)
        ensures
            unlocked.is_ok() <==> reply.is_ok(),
            match unlocked {
                Ok(secret) => transition(self@, Protection::ReadWrite, reply) matches Ok(v) && v
                    == secret@ && secret.wf(),
                Err(secret) => secret == self,
            },
    {
        match reply {
            Ok(_) => {
                let SecretBox { value, region, marker } = self;
                Ok(
                    SecretBox {
                        value,
                        region: region.with_protection(Protection::ReadWrite),
                        marker: PhantomData,
                    },
                )
            },
            Err(_) => Err(self),
        }
    }
}

impl<T, L: LockState> core::ops::Deref for SecretBox<T, L> {
    type Target = T;

    fn deref(&self) -> (value: &T)
        ensures
            *value == self.value(),
    {
        &self.value
    }
}

impl<T> core::ops::DerefMut for SecretBox<T, Unlocked> {
    fn deref_mut(&mut self) -> (value: &mut T)
        ensures
            *value == old(self).value(),
            final(self).value() == *final(value),
            final(self).region() == old(self).region(),
    {
        &mut self.value
    }
}

impl<T, L: LockState> AsRef<T> for SecretBox<T, L> {
    fn as_ref(&self) -> (value: &T)
        ensures
            *value == self.value(),
    {
        &self.value
    }
}

impl<T> AsMut<T> for SecretBox<T, Unlocked> {
    fn as_mut(&mut self) -> (value: &mut T)
        ensures
            *value == old(self).value(),
            final(self).value() == *final(value),
            final(self).region() == old(self).region(),
    {
        &mut self.value
    }
}

/// Two containers are equal exactly if their values are, wherever they lie.
impl<T: PartialEq, L: LockState> PartialEq for SecretBox<T, L> {
    fn eq(&self, other: &Self) -> (equal: bool) {
        self.value == other.value
    }
}

impl<T: PartialEq, L: LockState> vstd::std_specs::cmp::PartialEqSpecImpl for SecretBox<T, L> {
    open spec fn obeys_eq_spec() -> bool {
        T::obeys_eq_spec()
    }

    open spec fn eq_spec(&self, other: &Self) -> bool {
        self.value().eq_spec(&other.value())
    }
}

impl<T: Eq, L: LockState> Eq for SecretBox<T, L> {

}

/// Containers are ordered as their values are.
impl<T: PartialOrd, L: LockState> PartialOrd for SecretBox<T, L> {
    fn partial_cmp(&self, other: &Self) -> (order: Option<core::cmp::Ordering>) {
        self.value.partial_cmp(&other.value)
    }
}

impl<T: PartialOrd, L: LockState> vstd::std_specs::cmp::PartialOrdSpecImpl for SecretBox<T, L> {
    open spec fn obeys_partial_cmp_spec() -> bool {
        T::obeys_partial_cmp_spec()
    }

    open spec fn partial_cmp_spec(&self, other: &Self) -> Option<core::cmp::Ordering> {
        self.value().partial_cmp_spec(&other.value())
    }
}

/// Feeds `value` into `state` by `core::hash::Hash::hash`. Nothing is claimed
/// of what the hasher then holds.
#[verifier::external_body]
fn feed<T: core::hash::Hash, H: core::hash::Hasher>(value: &T, state: &mut H) {
    value.hash(state)
}

/// A container hashes as its value does.
impl<T: core::hash::Hash, L: LockState> core::hash::Hash for SecretBox<T, L> {
    fn hash<H: core::hash::Hasher>(&self, state: &mut H) {
        feed(&self.value, state)
    }
}

} // verus!
