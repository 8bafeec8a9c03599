//! The provider for Unix systems: anonymous private mappings that are pinned
//! in physical memory and kept out of core dumps.

use crate::allocator::ffi::{Advice, Call, Holdings, OsError, Protection, Reply, Source};
use crate::allocator::util::{granule, round_up, AlignedSize, Layout};
use crate::allocator::{
    Backend, Operation, Region, RegionView, SecretAllocator, Step, StepView,
};
use vstd::prelude::*;

verus! {

/// The provider of secret memory on Unix systems.
pub struct UnixSecretAllocator;

/// Where an allocation or a release of [`UnixSecretAllocator`] stands: what was
/// asked of the kernel last, and what is known from its answers so far.
#[derive(Clone, Copy, Debug, PartialEq, Eq, Structural)]
pub enum UnixState {
    /// Allocation: the mapping has been asked for.
    Mapping { len: usize },
    /// Allocation: the mapping exists and is being pinned.
    Pinning { addr: usize, len: usize },
    /// Allocation: the pinned mapping is being excluded from core dumps.
    Hiding { addr: usize, len: usize },
    /// Allocation failed with `error` after the pin: the pin is being undone.
    UndoPin { addr: usize, len: usize, error: OsError },
    /// Allocation failed with `error` after the mapping: it is being given back.
    UndoMap { addr: usize, len: usize, error: OsError },
    /// Release: write access is being asked for; `writable` says whether the
    /// pages can be written already.
    Restoring { addr: usize, len: usize, writable: bool },
    /// Release: the bytes are being zeroed; `writable` says whether the pages
    /// are known to be writable.
    Zeroing { addr: usize, len: usize, writable: bool },
    /// Release: the exclusion from core dumps is being reversed.
    Exposing { addr: usize, len: usize },
    /// Release: the pin is being removed.
    Unpinning { addr: usize, len: usize },
    /// Release: the pages are being given back.
    Unmapping { addr: usize, len: usize },
}

/// An allocation or a release of [`UnixSecretAllocator`] that waits for the
/// kernel. Only the provider makes one, and each is answered once: it is
/// neither copied nor built from parts.
pub struct UnixPending {
    state: UnixState,
}

impl View for UnixPending {
    type V = UnixState;

    closed spec fn view(&self) -> UnixState {
        self.state
    }
}

impl UnixPending {
    /// The operation that stands at `state`.
    fn at(state: UnixState) -> (pending: UnixPending)
        ensures
            pending@ == state,
    {
        UnixPending { state }
    }
}

impl Operation for UnixState {
    open spec fn backend(self) -> Backend {
        Backend::Unix
    }

    open spec fn releasing(self) -> bool {
        self is Restoring || self is Zeroing || self is Exposing || self is Unpinning
            || self is Unmapping
    }

    /// The length of the mapping that the operation asks for, holds or gives
    /// back; none where an allocation has failed before there was a mapping.
    open spec fn len(self) -> Option<usize> {
        match self {
            UnixState::Mapping { len, .. } => Some(len),
            UnixState::Pinning { len, .. } => Some(len),
            UnixState::Hiding { len, .. } => Some(len),
            UnixState::UndoPin { len, .. } => Some(len),
            UnixState::UndoMap { len, .. } => Some(len),
            UnixState::Restoring { len, .. } => Some(len),
            UnixState::Zeroing { len, .. } => Some(len),
            UnixState::Exposing { len, .. } => Some(len),
            UnixState::Unpinning { len, .. } => Some(len),
            UnixState::Unmapping { len, .. } => Some(len),
        }
    }

    /// The request that the operation waits for.
    open spec fn call(self) -> Call {
        match self {
            UnixState::Mapping { len } => Call::Reserve { len, source: Source::Anonymous },
            UnixState::Pinning { addr, len } => Call::Pin { addr, len },
            UnixState::Hiding { addr, len } => Call::Advise {
                addr,
                len,
                advice: Advice::ExcludeFromDumps,
            },
            UnixState::UndoPin { addr, len, error } => Call::Unpin { addr, len },
            UnixState::UndoMap { addr, len, error } => Call::Release { addr, len },
            UnixState::Restoring { addr, len, writable } => Call::Protect {
                addr,
                len,
                protection: Protection::ReadWrite,
            },
            UnixState::Zeroing { addr, len, .. } => Call::Zero { addr, len },
            UnixState::Exposing { addr, len } => Call::Advise {
                addr,
                len,
                advice: Advice::IncludeInDumps,
            },
            UnixState::Unpinning { addr, len } => Call::Unpin { addr, len },
            UnixState::Unmapping { addr, len } => Call::Release { addr, len },
        }
    }

    /// How the operation goes on once the kernel has answered with `reply`.
    ///
    /// An allocation maps, pins and hides; the first refusal ends it, after
    /// what was acquired before has been undone in reverse order, and the
    /// answers to the undoing are not looked at. A release asks for write
    /// access, zeroes whatever the answer to that was, reverses the hiding and
    /// the pin without looking at the answers, and unmaps.
    open spec fn next(self, reply: Reply) -> StepView<UnixState> {
        match self {
            UnixState::Mapping { len } => match reply {
                Ok(addr) => StepView::Continue(UnixState::Pinning { addr, len }),
                Err(error) => StepView::Failed(error),
            },
            UnixState::Pinning { addr, len } => match reply {
                Ok(_) => StepView::Continue(UnixState::Hiding { addr, len }),
                Err(error) => StepView::Continue(UnixState::UndoMap { addr, len, error }),
            },
            UnixState::Hiding { addr, len } => match reply {
                Ok(_) => StepView::Allocated(
                    RegionView {
                        base: addr,
                        len,
                        protection: Protection::ReadWrite,
                        origin: Backend::Unix,
                    },
                ),
                Err(error) => StepView::Continue(UnixState::UndoPin { addr, len, error }),
            },
            UnixState::UndoPin { addr, len, error } => StepView::Continue(
                UnixState::UndoMap { addr, len, error },
            ),
            UnixState::UndoMap { addr, len, error } => StepView::Failed(error),
            UnixState::Restoring { addr, len, writable } => StepView::Continue(
                UnixState::Zeroing { addr, len, writable: writable || reply.is_ok() },
            ),
            UnixState::Zeroing { addr, len, .. } => StepView::Continue(
                UnixState::Exposing { addr, len },
            ),
            UnixState::Exposing { addr, len } => StepView::Continue(
                UnixState::Unpinning { addr, len },
            ),
            UnixState::Unpinning { addr, len } => StepView::Continue(
                UnixState::Unmapping { addr, len },
            ),
            UnixState::Unmapping { addr, len } => match reply {
                Ok(_) => StepView::Released,
                Err(error) => StepView::Failed(error),
            },
        }
    }

    /// What the process holds of the kernel while the operation waits in this
    /// state.
    open spec fn holds(self) -> Holdings {
        match self {
            UnixState::Mapping { len } => Holdings::nothing(),
            UnixState::Pinning { addr, len } => Holdings {
                descriptor: None,
                mapping: Some((addr, len)),
                pinned: false,
                hidden: false,
                writable: true,
                clean: true,
            },
            UnixState::Hiding { addr, len } => Holdings {
                descriptor: None,
                mapping: Some((addr, len)),
                pinned: true,
                hidden: false,
                writable: true,
                clean: true,
            },
            UnixState::UndoPin { addr, len, error } => Holdings {
                descriptor: None,
                mapping: Some((addr, len)),
                pinned: true,
                hidden: false,
                writable: true,
                clean: true,
            },
            UnixState::UndoMap { addr, len, error } => Holdings {
                descriptor: None,
                mapping: Some((addr, len)),
                pinned: false,
                hidden: false,
                writable: true,
                clean: true,
            },
            UnixState::Restoring { addr, len, writable } => Holdings {
                descriptor: None,
                mapping: Some((addr, len)),
                pinned: true,
                hidden: true,
                writable,
                clean: false,
            },
            UnixState::Zeroing { addr, len, writable } => Holdings {
                descriptor: None,
                mapping: Some((addr, len)),
                pinned: true,
                hidden: true,
                writable,
                clean: false,
            },
            UnixState::Exposing { addr, len } => Holdings {
                descriptor: None,
                mapping: Some((addr, len)),
                pinned: true,
                hidden: true,
                writable: true,
                clean: true,
            },
            UnixState::Unpinning { addr, len } => Holdings {
                descriptor: None,
                mapping: Some((addr, len)),
                pinned: true,
                hidden: false,
                writable: true,
                clean: true,
            },
            UnixState::Unmapping { addr, len } => Holdings {
                descriptor: None,
                mapping: Some((addr, len)),
                pinned: false,
                hidden: false,
                writable: true,
                clean: true,
            },
        }
    }

    /// An upper bound on the requests that the operation still makes, the one
    /// it waits for included.
    open spec fn remaining(self) -> nat {
        match self {
            UnixState::Mapping { .. } => 5,
            UnixState::Pinning { .. } => 4,
            UnixState::Hiding { .. } => 3,
            UnixState::UndoPin { .. } => 2,
            UnixState::UndoMap { .. } => 1,
            UnixState::Restoring { .. } => 5,
            UnixState::Zeroing { .. } => 4,
            UnixState::Exposing { .. } => 3,
            UnixState::Unpinning { .. } => 2,
            UnixState::Unmapping { .. } => 1,
        }
    }

    /// Every request of the provider makes sense for what the process holds,
    /// every step accounts for what the kernel granted, and every operation
    /// ends: an allocation with a region that is mapped, pinned, hidden,
    /// writable and zero, or with nothing held; a release with nothing held.
    proof fn lemma_step(self, reply: Reply) {
    }

    /// The length that the states carry is handed on unchanged.
    proof fn lemma_span(self, reply: Reply, len: usize) {
    }
}

impl UnixSecretAllocator {
    /// The provider.
    pub fn new() -> (provider: UnixSecretAllocator) {
        UnixSecretAllocator
    }
}

impl SecretAllocator for UnixSecretAllocator {
    type State = UnixState;

    type Pending = UnixPending;

    open spec fn owns(&self, origin: Backend) -> bool {
        origin == Backend::Unix
    }

    fn allocate(&self, layout: Layout, page_size: usize) -> (pending: UnixPending)
        ensures
            pending@ == (UnixState::Mapping {
                len: round_up(
                    layout.size() as int,
                    granule(layout.align() as int, page_size as int),
                ) as usize,
            }),
    {
        UnixPending::at(UnixState::Mapping { len: layout.page_aligned_size(page_size) })
    }

    fn make_read_only(&self, region: &Region) -> (call: Call) {
        region.protect(Protection::ReadOnly)
    }

    fn make_writable(&self, region: &Region) -> (call: Call) {
        region.protect(Protection::ReadWrite)
    }

    fn dealloc(&self, region: Region) -> (pending: UnixPending)
        ensures
            pending@ == (UnixState::Restoring {
                addr: region@.base,
                len: region@.len,
                writable: region@.protection == Protection::ReadWrite,
            }),
    {
        let writable = match region.protection() {
            Protection::ReadWrite => true,
            Protection::ReadOnly => false,
        };
        UnixPending::at(
            UnixState::Restoring { addr: region.base(), len: region.len(), writable },
        )
    }

    fn call(&self, pending: &UnixPending) -> (call: Call)
        ensures
            call == pending@.call(),
    {
        match pending.state {
            UnixState::Mapping { len } => Call::Reserve { len, source: Source::Anonymous },
            UnixState::Pinning { addr, len } => Call::Pin { addr, len },
            UnixState::Hiding { addr, len } => Call::Advise {
                addr,
                len,
                advice: Advice::ExcludeFromDumps,
            },
            UnixState::UndoPin { addr, len, .. } => Call::Unpin { addr, len },
            UnixState::UndoMap { addr, len, .. } => Call::Release { addr, len },
            UnixState::Restoring { addr, len, .. } => Call::Protect {
                addr,
                len,
                protection: Protection::ReadWrite,
            },
            UnixState::Zeroing { addr, len, .. } => Call::Zero { addr, len },
            UnixState::Exposing { addr, len } => Call::Advise {
                addr,
                len,
                advice: Advice::IncludeInDumps,
            },
            UnixState::Unpinning { addr, len } => Call::Unpin { addr, len },
            UnixState::Unmapping { addr, len } => Call::Release { addr, len },
        }
    }

    fn resume(&self, pending: UnixPending, reply: Reply) -> (step: Step<UnixPending>)
        ensures
            step@ == pending@.next(reply),
    {
        match pending.state {
            UnixState::Mapping { len } => match reply {
                Ok(addr) => Step::Continue(UnixPending::at(UnixState::Pinning { addr, len })),
                Err(error) => Step::Failed(error),
            },
            UnixState::Pinning { addr, len } => match reply {
                Ok(_) => Step::Continue(UnixPending::at(UnixState::Hiding { addr, len })),
                Err(error) => Step::Continue(
                    UnixPending::at(UnixState::UndoMap { addr, len, error }),
                ),
            },
            UnixState::Hiding { addr, len } => match reply {
                Ok(_) => Step::Allocated(Region::fresh(addr, len, Backend::Unix)),
                Err(error) => Step::Continue(
                    UnixPending::at(UnixState::UndoPin { addr, len, error }),
                ),
            },
            UnixState::UndoPin { addr, len, error } => Step::Continue(
                UnixPending::at(UnixState::UndoMap { addr, len, error }),
            ),
            UnixState::UndoMap { error, .. } => Step::Failed(error),
            UnixState::Restoring { addr, len, writable } => Step::Continue(
                UnixPending::at(
                    UnixState::Zeroing { addr, len, writable: writable || reply.is_ok() },
                ),
            ),
            UnixState::Zeroing { addr, len, .. } => Step::Continue(
                UnixPending::at(UnixState::Exposing { addr, len }),
            ),
            UnixState::Exposing { addr, len } => Step::Continue(
                UnixPending::at(UnixState::Unpinning { addr, len }),
            ),
            UnixState::Unpinning { addr, len } => Step::Continue(
                UnixPending::at(UnixState::Unmapping { addr, len }),
            ),
            UnixState::Unmapping { .. } => match reply {
                Ok(_) => Step::Released,
                Err(error) => Step::Failed(error),
            },
        }
    }
}

} // verus!
