//! The provider for Linux kernels with secret-memory descriptors: pages that
//! the kernel hides from every other process and never swaps or dumps.

use crate::allocator::ffi::{Call, Holdings, OsError, Protection, Reply, Source};
use crate::allocator::util::{granule, round_up, AlignedSize, Layout};
use crate::allocator::{
    Backend, Operation, Region, RegionView, SecretAllocator, Step, StepView,
};
use vstd::prelude::*;

verus! {

/// The provider of secret memory on Linux.
pub struct LinuxSecretAllocator;

/// Where an allocation or a release of [`LinuxSecretAllocator`] stands: what was
/// asked of the kernel last, and what is known from its answers so far.
#[derive(Clone, Copy, Debug, PartialEq, Eq, Structural)]
pub enum LinuxState {
    /// Allocation: the descriptor has been asked for.
    Opening { len: usize },
    /// Allocation: the descriptor is being given its length.
    Sizing { fd: usize, len: usize },
    /// Allocation: the descriptor is being mapped.
    Mapping { fd: usize, len: usize },
    /// Allocation: the mapping exists and the descriptor is being closed.
    Closing { fd: usize, addr: usize, len: usize },
    /// Allocation failed with `error`: the descriptor is being closed.
    Abandoning { fd: usize, error: OsError },
    /// Release: write access is being asked for; `writable` says whether the
    /// pages can be written already.
    Restoring { addr: usize, len: usize, writable: bool },
    /// Release: the bytes are being zeroed; `writable` says whether the pages
    /// are known to be writable.
    Zeroing { addr: usize, len: usize, writable: bool },
    /// Release: the pages are being given back.
    Unmapping { addr: usize, len: usize },
}

/// An allocation or a release of [`LinuxSecretAllocator`] that waits for the
/// kernel. Only the provider makes one, and each is answered once: it is
/// neither copied nor built from parts.
pub struct LinuxPending {
    state: LinuxState,
}

impl View for LinuxPending {
    type V = LinuxState;

    closed spec fn view(&self) -> LinuxState {
        self.state
    }
}

impl LinuxPending {
    /// The operation that stands at `state`.
    fn at(state: LinuxState) -> (pending: LinuxPending)
        ensures
            pending@ == state,
    {
        LinuxPending { state }
    }
}

impl Operation for LinuxState {
    open spec fn backend(self) -> Backend {
        Backend::Linux
    }

    open spec fn releasing(self) -> bool {
        self is Restoring || self is Zeroing || self is Unmapping
    }

    /// The length of the mapping that the operation asks for, holds or gives
    /// back; none where an allocation has failed before there was a mapping.
    open spec fn len(self) -> Option<usize> {
        match self {
            LinuxState::Opening { len, .. } => Some(len),
            LinuxState::Sizing { len, .. } => Some(len),
            LinuxState::Mapping { len, .. } => Some(len),
            LinuxState::Closing { len, .. } => Some(len),
            LinuxState::Abandoning { .. } => None,
            LinuxState::Restoring { len, .. } => Some(len),
            LinuxState::Zeroing { len, .. } => Some(len),
            LinuxState::Unmapping { len, .. } => Some(len),
        }
    }

    /// The request that the operation waits for.
    open spec fn call(self) -> Call {
        match self {
            LinuxState::Opening { len } => Call::OpenSecret,
            LinuxState::Sizing { fd, len } => Call::Resize { fd, len },
            LinuxState::Mapping { fd, len } => Call::Reserve {
                len,
                source: Source::Secret { fd },
            },
            LinuxState::Closing { fd, addr, len } => Call::Close { fd },
            LinuxState::Abandoning { fd, error } => Call::Close { fd },
            LinuxState::Restoring { addr, len, writable } => Call::Protect {
                addr,
                len,
                protection: Protection::ReadWrite,
            },
            LinuxState::Zeroing { addr, len, .. } => Call::Zero { addr, len },
            LinuxState::Unmapping { addr, len } => Call::Release { addr, len },
        }
    }

    /// How the operation goes on once the kernel has answered with `reply`.
    ///
    /// An allocation opens a descriptor, sizes it and maps it. The descriptor
    /// is closed before the allocation ends, whether it succeeds or fails, and
    /// the answer to the closing is not looked at. A release asks for write
    /// access, zeroes whatever the answer to that was, and unmaps.
    open spec fn next(self, reply: Reply) -> StepView<LinuxState> {
        match self {
            LinuxState::Opening { len } => match reply {
                Ok(fd) => StepView::Continue(LinuxState::Sizing { fd, len }),
                Err(error) => StepView::Failed(error),
            },
            LinuxState::Sizing { fd, len } => match reply {
                Ok(_) => StepView::Continue(LinuxState::Mapping { fd, len }),
                Err(error) => StepView::Continue(LinuxState::Abandoning { fd, error }),
            },
            LinuxState::Mapping { fd, len } => match reply {
                Ok(addr) => StepView::Continue(LinuxState::Closing { fd, addr, len }),
                Err(error) => StepView::Continue(LinuxState::Abandoning { fd, error }),
            },
            LinuxState::Closing { fd, addr, len } => StepView::Allocated(
                RegionView {
                    base: addr,
                    len,
                    protection: Protection::ReadWrite,
                    origin: Backend::Linux,
                },
            ),
            LinuxState::Abandoning { fd, error } => StepView::Failed(error),
            LinuxState::Restoring { addr, len, writable } => StepView::Continue(
                LinuxState::Zeroing { addr, len, writable: writable || reply.is_ok() },
            ),
            LinuxState::Zeroing { addr, len, .. } => StepView::Continue(
                LinuxState::Unmapping { addr, len },
            ),
            LinuxState::Unmapping { addr, len } => match reply {
                Ok(_) => StepView::Released,
                Err(error) => StepView::Failed(error),
            },
        }
    }

    /// What the process holds of the kernel while the operation waits in this
    /// state.
    open spec fn holds(self) -> Holdings {
        match self {
            LinuxState::Opening { len } => Holdings::nothing(),
            LinuxState::Sizing { fd, len } => Holdings {
                descriptor: Some(fd),
                ..Holdings::nothing()
            },
            LinuxState::Mapping { fd, len } => Holdings {
                descriptor: Some(fd),
                ..Holdings::nothing()
            },
            LinuxState::Closing { fd, addr, len } => Holdings {
                descriptor: Some(fd),
                mapping: Some((addr, len)),
                pinned: true,
                hidden: true,
                writable: true,
                clean: true,
            },
            LinuxState::Abandoning { fd, error } => Holdings {
                descriptor: Some(fd),
                ..Holdings::nothing()
            },
            LinuxState::Restoring { addr, len, writable } => Holdings {
                descriptor: None,
                mapping: Some((addr, len)),
                pinned: true,
                hidden: true,
                writable,
                clean: false,
            },
            LinuxState::Zeroing { addr, len, writable } => Holdings {
                descriptor: None,
                mapping: Some((addr, len)),
                pinned: true,
                hidden: true,
                writable,
                clean: false,
            },
            LinuxState::Unmapping { addr, len } => Holdings {
                descriptor: None,
                mapping: Some((addr, len)),
                pinned: true,
                hidden: true,
                writable: true,
                clean: true,
            },
        }
    }

    /// An upper bound on the requests that the operation still makes, the one
    /// it waits for included.
    open spec fn remaining(self) -> nat {
        match self {
            LinuxState::Opening { .. } => 4,
            LinuxState::Sizing { .. } => 3,
            LinuxState::Mapping { .. } => 2,
            LinuxState::Closing { .. } => 1,
            LinuxState::Abandoning { .. } => 1,
            LinuxState::Restoring { .. } => 3,
            LinuxState::Zeroing { .. } => 2,
            LinuxState::Unmapping { .. } => 1,
        }
    }

    /// Every request of the provider makes sense for what the process holds,
    /// every step accounts for what the kernel granted, and every operation
    /// ends: an allocation with a region that is mapped, secret, writable and
    /// zero, or with nothing held, and in either case with the descriptor
    /// closed; a release with nothing held.
    proof fn lemma_step(self, reply: Reply) {
    }

    /// The length that the states carry is handed on unchanged.
    proof fn lemma_span(self, reply: Reply, len: usize) {
    }
}

impl LinuxSecretAllocator {
    /// The provider.
    pub fn new() -> (provider: LinuxSecretAllocator) {
        LinuxSecretAllocator
    }
}

impl SecretAllocator for LinuxSecretAllocator {
    type State = LinuxState;

    type Pending = LinuxPending;

    open spec fn owns(&self, origin: Backend) -> bool {
        origin == Backend::Linux
    }

    fn allocate(&self, layout: Layout, page_size: usize) -> (pending: LinuxPending)
        ensures
            pending@ == (LinuxState::Opening {
                len: round_up(
                    layout.size() as int,
                    granule(layout.align() as int, page_size as int),
                ) as usize,
            }),
    {
        LinuxPending::at(LinuxState::Opening { len: layout.page_aligned_size(page_size) })
    }

    fn make_read_only(&self, region: &Region) -> (call: Call) {
        region.protect(Protection::ReadOnly)
    }

    fn make_writable(&self, region: &Region) -> (call: Call) {
        region.protect(Protection::ReadWrite)
    }

    fn dealloc(&self, region: Region) -> (pending: LinuxPending)
        ensures
            pending@ == (LinuxState::Restoring {
                addr: region@.base,
                len: region@.len,
                writable: region@.protection == Protection::ReadWrite,
            }),
    {
        let writable = match region.protection() {
            Protection::ReadWrite => true,
            Protection::ReadOnly => false,
        };
        LinuxPending::at(
            LinuxState::Restoring { addr: region.base(), len: region.len(), writable },
        )
    }

    fn call(&self, pending: &LinuxPending) -> (call: Call)
        ensures
            call == pending@.call(),
    {
        match pending.state {
            LinuxState::Opening { .. } => Call::OpenSecret,
            LinuxState::Sizing { fd, len } => Call::Resize { fd, len },
            LinuxState::Mapping { fd, len } => Call::Reserve {
                len,
                source: Source::Secret { fd },
            },
            LinuxState::Closing { fd, .. } => Call::Close { fd },
            LinuxState::Abandoning { fd, .. } => Call::Close { fd },
            LinuxState::Restoring { addr, len, .. } => Call::Protect {
                addr,
                len,
                protection: Protection::ReadWrite,
            },
            LinuxState::Zeroing { addr, len, .. } => Call::Zero { addr, len },
            LinuxState::Unmapping { addr, len } => Call::Release { addr, len },
        }
    }

    fn resume(&self, pending: LinuxPending, reply: Reply) -> (step: Step<LinuxPending>)
        ensures
            step@ == pending@.next(reply),
    {
        match pending.state {
            LinuxState::Opening { len } => match reply {
                Ok(fd) => Step::Continue(LinuxPending::at(LinuxState::Sizing { fd, len })),
                Err(error) => Step::Failed(error),
            },
            LinuxState::Sizing { fd, len } => match reply {
                Ok(_) => Step::Continue(LinuxPending::at(LinuxState::Mapping { fd, len })),
                Err(error) => Step::Continue(
                    LinuxPending::at(LinuxState::Abandoning { fd, error }),
                ),
            },
            LinuxState::Mapping { fd, len } => match reply {
                Ok(addr) => Step::Continue(LinuxPending::at(LinuxState::Closing { fd, addr, len })),
                Err(error) => Step::Continue(
                    LinuxPending::at(LinuxState::Abandoning { fd, error }),
                ),
            },
            LinuxState::Closing { addr, len, .. } => Step::Allocated(
                Region::fresh(addr, len, Backend::Linux),
            ),
            LinuxState::Abandoning { error, .. } => Step::Failed(error),
            LinuxState::Restoring { addr, len, writable } => Step::Continue(
                LinuxPending::at(
                    LinuxState::Zeroing { addr, len, writable: writable || reply.is_ok() },
                ),
            ),
            LinuxState::Zeroing { addr, len, .. } => Step::Continue(
                LinuxPending::at(LinuxState::Unmapping { addr, len }),
            ),
            LinuxState::Unmapping { .. } => match reply {
                Ok(_) => Step::Released,
                Err(error) => Step::Failed(error),
            },
        }
    }
}

} // verus!
