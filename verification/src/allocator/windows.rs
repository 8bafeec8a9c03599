//! The provider for Windows: reserved and committed virtual memory that
//! bypasses the cache and is pinned in physical memory.

use crate::allocator::ffi::{Call, Holdings, OsError, Protection, Reply, Source};
use crate::allocator::util::{granule, round_up, AlignedSize, Layout};
use crate::allocator::{
    Backend, Operation, Region, RegionView, SecretAllocator, Step, StepView,
};
use vstd::prelude::*;

verus! {

/// The provider of secret memory on Windows.
pub struct WindowsSecretAllocator;

/// Where an allocation or a release of [`WindowsSecretAllocator`] stands: what was
/// asked of the kernel last, and what is known from its answers so far.
#[derive(Clone, Copy, Debug, PartialEq, Eq, Structural)]
pub enum WindowsState {
    /// Allocation: the pages have been asked for.
    Committing { len: usize },
    /// Allocation: the pages exist and are being pinned.
    Pinning { addr: usize, len: usize },
    /// Allocation failed with `error` after the pages were committed: they are
    /// being given back.
    UndoCommit { addr: usize, len: usize, error: OsError },
    /// Release: write access is being asked for; `writable` says whether the
    /// pages can be written already.
    Restoring { addr: usize, len: usize, writable: bool },
    /// Release: the bytes are being zeroed; `writable` says whether the pages
    /// are known to be writable.
    Zeroing { addr: usize, len: usize, writable: bool },
    /// Release: the pin is being removed.
    Unpinning { addr: usize, len: usize },
    /// Release: the pages are being given back.
    Freeing { addr: usize, len: usize },
}

/// An allocation or a release of [`WindowsSecretAllocator`] that waits for the
/// kernel. Only the provider makes one, and each is answered once: it is
/// neither copied nor built from parts.
pub struct WindowsPending {
    state: WindowsState,
}

impl View for WindowsPending {
    type V = WindowsState;

    closed spec fn view(&self) -> WindowsState {
        self.state
    }
}

impl WindowsPending {
    /// The operation that stands at `state`.
    fn at(state: WindowsState) -> (pending: WindowsPending)
        ensures
            pending@ == state,
    {
        WindowsPending { state }
    }
}

impl Operation for WindowsState {
    open spec fn backend(self) -> Backend {
        Backend::Windows
    }

    open spec fn releasing(self) -> bool {
        self is Restoring || self is Zeroing || self is Unpinning || self is Freeing
    }

    /// The length of the mapping that the operation asks for, holds or gives
    /// back; none where an allocation has failed before there was a mapping.
    open spec fn len(self) -> Option<usize> {
        match self {
            WindowsState::Committing { len, .. } => Some(len),
            WindowsState::Pinning { len, .. } => Some(len),
            WindowsState::UndoCommit { len, .. } => Some(len),
            WindowsState::Restoring { len, .. } => Some(len),
            WindowsState::Zeroing { len, .. } => Some(len),
            WindowsState::Unpinning { len, .. } => Some(len),
            WindowsState::Freeing { len, .. } => Some(len),
        }
    }

    /// The request that the operation waits for.
    open spec fn call(self) -> Call {
        match self {
            WindowsState::Committing { len } => Call::Reserve {
                len,
                source: Source::Committed,
            },
            WindowsState::Pinning { addr, len } => Call::Pin { addr, len },
            WindowsState::UndoCommit { addr, len, error } => Call::Release { addr, len },
            WindowsState::Restoring { addr, len, writable } => Call::Protect {
                addr,
                len,
                protection: Protection::ReadWrite,
            },
            WindowsState::Zeroing { addr, len, .. } => Call::Zero { addr, len },
            WindowsState::Unpinning { addr, len } => Call::Unpin { addr, len },
            WindowsState::Freeing { addr, len } => Call::Release { addr, len },
        }
    }

    /// How the operation goes on once the kernel has answered with `reply`.
    ///
    /// An allocation commits and pins; where the pin is refused the pages are
    /// given back, and the answer to that is not looked at. A release asks for
    /// write access, zeroes whatever the answer to that was, removes the pin
    /// without looking at the answer, and frees.
    open spec fn next(self, reply: Reply) -> StepView<WindowsState> {
        match self {
            WindowsState::Committing { len } => match reply {
                Ok(addr) => StepView::Continue(WindowsState::Pinning { addr, len }),
                Err(error) => StepView::Failed(error),
            },
            WindowsState::Pinning { addr, len } => match reply {
                Ok(_) => StepView::Allocated(
                    RegionView {
                        base: addr,
                        len,
                        protection: Protection::ReadWrite,
                        origin: Backend::Windows,
                    },
                ),
                Err(error) => StepView::Continue(WindowsState::UndoCommit { addr, len, error }),
            },
            WindowsState::UndoCommit { addr, len, error } => StepView::Failed(error),
            WindowsState::Restoring { addr, len, writable } => StepView::Continue(
                WindowsState::Zeroing { addr, len, writable: writable || reply.is_ok() },
            ),
            WindowsState::Zeroing { addr, len, .. } => StepView::Continue(
                WindowsState::Unpinning { addr, len },
            ),
            WindowsState::Unpinning { addr, len } => StepView::Continue(
                WindowsState::Freeing { addr, len },
            ),
            WindowsState::Freeing { addr, len } => match reply {
                Ok(_) => StepView::Released,
                Err(error) => StepView::Failed(error),
            },
        }
    }

    /// What the process holds of the kernel while the operation waits in this
    /// state.
    open spec fn holds(self) -> Holdings {
        match self {
            WindowsState::Committing { len } => Holdings::nothing(),
            WindowsState::Pinning { addr, len } => Holdings {
                descriptor: None,
                mapping: Some((addr, len)),
                pinned: false,
                hidden: false,
                writable: true,
                clean: true,
            },
            WindowsState::UndoCommit { addr, len, error } => Holdings {
                descriptor: None,
                mapping: Some((addr, len)),
                pinned: false,
                hidden: false,
                writable: true,
                clean: true,
            },
            WindowsState::Restoring { addr, len, writable } => Holdings {
                descriptor: None,
                mapping: Some((addr, len)),
                pinned: true,
                hidden: false,
                writable,
                clean: false,
            },
            WindowsState::Zeroing { addr, len, writable } => Holdings {
                descriptor: None,
                mapping: Some((addr, len)),
                pinned: true,
                hidden: false,
                writable,
                clean: false,
            },
            WindowsState::Unpinning { addr, len } => Holdings {
                descriptor: None,
                mapping: Some((addr, len)),
                pinned: true,
                hidden: false,
                writable: true,
                clean: true,
            },
            WindowsState::Freeing { addr, len } => Holdings {
                descriptor: None,
                mapping: Some((addr, len)),
                pinned: false,
                hidden: false,
                writable: true,
                clean: true,
            },
        }
    }

    /// An upper bound on the requests that the operation still makes, the one
    /// it waits for included.
    open spec fn remaining(self) -> nat {
        match self {
            WindowsState::Committing { .. } => 3,
            WindowsState::Pinning { .. } => 2,
            WindowsState::UndoCommit { .. } => 1,
            WindowsState::Restoring { .. } => 4,
            WindowsState::Zeroing { .. } => 3,
            WindowsState::Unpinning { .. } => 2,
            WindowsState::Freeing { .. } => 1,
        }
    }

    /// Every request of the provider makes sense for what the process holds,
    /// every step accounts for what the kernel granted, and every operation
    /// ends: an allocation with a region that is committed, pinned, writable
    /// and zero, or with nothing held; a release with nothing held.
    proof fn lemma_step(self, reply: Reply) {
    }

    /// The length that the states carry is handed on unchanged.
    proof fn lemma_span(self, reply: Reply, len: usize) {
    }
}

impl WindowsSecretAllocator {
    /// The provider.
    pub fn new() -> (provider: WindowsSecretAllocator) {
        WindowsSecretAllocator
    }
}

impl SecretAllocator for WindowsSecretAllocator {
    type State = WindowsState;

    type Pending = WindowsPending;

    open spec fn owns(&self, origin: Backend) -> bool {
        origin == Backend::Windows
    }

    fn allocate(&self, layout: Layout, page_size: usize) -> (pending: WindowsPending)
        ensures
            pending@ == (WindowsState::Committing {
                len: round_up(
                    layout.size() as int,
                    granule(layout.align() as int, page_size as int),
                ) as usize,
            }),
    {
        WindowsPending::at(WindowsState::Committing { len: layout.page_aligned_size(page_size) })
    }

    fn make_read_only(&self, region: &Region) -> (call: Call) {
        region.protect(Protection::ReadOnly)
    }

    fn make_writable(&self, region: &Region) -> (call: Call) {
        region.protect(Protection::ReadWrite)
    }

    fn dealloc(&self, region: Region) -> (pending: WindowsPending)
        ensures
            pending@ == (WindowsState::Restoring {
                addr: region@.base,
                len: region@.len,
                writable: region@.protection == Protection::ReadWrite,
            }),
    {
        let writable = match region.protection() {
            Protection::ReadWrite => true,
            Protection::ReadOnly => false,
        };
        WindowsPending::at(
            WindowsState::Restoring { addr: region.base(), len: region.len(), writable },
        )
    }

    fn call(&self, pending: &WindowsPending) -> (call: Call)
        ensures
            call == pending@.call(),
    {
        match pending.state {
            WindowsState::Committing { len } => Call::Reserve { len, source: Source::Committed },
            WindowsState::Pinning { addr, len } => Call::Pin { addr, len },
            WindowsState::UndoCommit { addr, len, .. } => Call::Release { addr, len },
            WindowsState::Restoring { addr, len, .. } => Call::Protect {
                addr,
                len,
                protection: Protection::ReadWrite,
            },
            WindowsState::Zeroing { addr, len, .. } => Call::Zero { addr, len },
            WindowsState::Unpinning { addr, len } => Call::Unpin { addr, len },
            WindowsState::Freeing { addr, len } => Call::Release { addr, len },
        }
    }

    fn resume(&self, pending: WindowsPending, reply: Reply) -> (step: Step<WindowsPending>)
        ensures
            step@ == pending@.next(reply),
    {
        match pending.state {
            WindowsState::Committing { len } => match reply {
                Ok(addr) => Step::Continue(WindowsPending::at(WindowsState::Pinning { addr, len })),
                Err(error) => Step::Failed(error),
            },
            WindowsState::Pinning { addr, len } => match reply {
                Ok(_) => Step::Allocated(Region::fresh(addr, len, Backend::Windows)),
                Err(error) => Step::Continue(
                    WindowsPending::at(WindowsState::UndoCommit { addr, len, error }),
                ),
            },
            WindowsState::UndoCommit { error, .. } => Step::Failed(error),
            WindowsState::Restoring { addr, len, writable } => Step::Continue(
                WindowsPending::at(
                    WindowsState::Zeroing { addr, len, writable: writable || reply.is_ok() },
                ),
            ),
            WindowsState::Zeroing { addr, len, .. } => Step::Continue(
                WindowsPending::at(WindowsState::Unpinning { addr, len }),
            ),
            WindowsState::Unpinning { addr, len } => Step::Continue(
                WindowsPending::at(WindowsState::Freeing { addr, len }),
            ),
            WindowsState::Freeing { .. } => match reply {
                Ok(_) => Step::Released,
                Err(error) => Step::Failed(error),
            },
        }
    }
}

} // verus!
