//! The secret allocator: regions of secret memory, the interface that every
//! provider implements, and the selector that picks the provider of a process.

use crate::allocator::ffi::{Call, Holdings, OsError, Protection, Reply};
use crate::allocator::linux::{LinuxPending, LinuxSecretAllocator, LinuxState};
use crate::allocator::unix::{UnixPending, UnixSecretAllocator, UnixState};
use crate::allocator::util::{
    granule, lemma_round_up_bounds, lemma_round_up_fits, round_up, Layout,
};
use crate::allocator::windows::{WindowsPending, WindowsSecretAllocator, WindowsState};
use vstd::prelude::*;

pub mod ffi;
pub mod linux;
pub mod unix;
pub mod util;
pub mod windows;

verus! {

/// The provider that a region came from, and that alone may change or release
/// it.
#[derive(Clone, Copy, Debug, PartialEq, Eq, Structural)]
pub enum Backend {
    /// Secret-memory descriptors of the Linux kernel.
    Linux,
    /// Anonymous mappings, pinned and kept out of core dumps.
    Unix,
    /// Committed virtual memory, pinned.
    Windows,
}

/// What a [`Region`] is: where it lies, how long it is, what its pages allow
/// and who provided it.
pub struct RegionView {
    pub base: usize,
    pub len: usize,
    pub protection: Protection,
    pub origin: Backend,
}

/// A contiguous, page-aligned span of secret memory. Only a provider makes
/// one, as the end of an allocation that the kernel has answered step by step,
/// and it cannot be copied: whoever holds it owns the span.
pub struct Region {
    base: usize,
    len: usize,
    protection: Protection,
    origin: Backend,
}

impl View for Region {
    type V = RegionView;

    closed spec fn view(&self) -> RegionView {
        RegionView {
            base: self.base,
            len: self.len,
            protection: self.protection,
            origin: self.origin,
        }
    }
}

impl Region {
    /// The region that a provider has just mapped: readable and writable.
    pub(crate) fn fresh(base: usize, len: usize, origin: Backend) -> (region: Region)
        ensures
            region@ == (RegionView { base, len, protection: Protection::ReadWrite, origin }),
    {
        Region { base, len, protection: Protection::ReadWrite, origin }
    }

    /// The same region under another protection.
    pub(crate) fn with_protection(self, protection: Protection) -> (region: Region)
        ensures
            region@ == (RegionView { protection, ..self@ }),
    {
        Region { base: self.base, len: self.len, protection, origin: self.origin }
    }

    /// The address of the first byte.
    pub fn base(&self) -> (base: usize)
        ensures
            base == self@.base,
    {
        self.base
    }

    /// The length in bytes.
    pub fn len(&self) -> (len: usize)
        ensures
            len == self@.len,
    {
        self.len
    }

    /// What the pages allow at present.
    pub fn protection(&self) -> (protection: Protection)
        ensures
            protection == self@.protection,
    {
        self.protection
    }

    /// The provider that owns the region.
    pub fn origin(&self) -> (origin: Backend)
        ensures
            origin == self@.origin,
    {
        self.origin
    }

    /// The request that changes the protection of the whole region.
    pub fn protect(&self, protection: Protection) -> (call: Call)
        ensures
            call == (Call::Protect { addr: self@.base, len: self@.len, protection }),
    {
        Call::Protect { addr: self.base, len: self.len, protection }
    }
}

impl RegionView {
    /// What a process holds of the kernel while it owns this region and may
    /// have written to it.
    pub open spec fn holdings(self) -> Holdings {
        Holdings {
            descriptor: None,
            mapping: Some((self.base, self.len)),
            pinned: true,
            hidden: self.origin != Backend::Windows,
            writable: self.protection == Protection::ReadWrite,
            clean: false,
        }
    }
}

/// What a provider operation does once the kernel has answered.
pub enum Step<P> {
    /// The operation goes on: the kernel is asked what the new state names.
    Continue(P),
    /// An allocation is complete.
    Allocated(Region),
    /// A release is complete.
    Released,
    /// The operation has failed with the error of the request that the kernel
    /// refused.
    Failed(OsError),
}

/// A [`Step`] with the operation and the region it may hold seen as their
/// views.
pub enum StepView<S> {
    Continue(S),
    Allocated(RegionView),
    Released,
    Failed(OsError),
}

impl<P: View> View for Step<P> {
    type V = StepView<P::V>;

    open spec fn view(&self) -> StepView<P::V> {
        match self {
            Step::Continue(pending) => StepView::Continue(pending@),
            Step::Allocated(region) => StepView::Allocated(region@),
            Step::Released => StepView::Released,
            Step::Failed(error) => StepView::Failed(*error),
        }
    }
}

/// Where an allocation or a release stands while it waits for the kernel: what
/// it asks, how it goes on, and what the process holds meanwhile. Every provider describes its
/// operations in these terms and proves of them what `lemma_step` and
/// `lemma_span` state.
pub trait Operation: Sized {
    /// The provider that runs the operation.
    spec fn backend(self) -> Backend;

    /// Whether this is a state of a release rather than of an allocation.
    spec fn releasing(self) -> bool;

    /// The length of the mapping that the operation asks for, holds or gives
    /// back; none where an allocation has failed before there was a mapping.
    spec fn len(self) -> Option<usize>;

    /// The request that the operation waits for.
    spec fn call(self) -> Call;

    /// How the operation goes on once the kernel has answered with `reply`.
    spec fn next(self, reply: Reply) -> StepView<Self>;

    /// What the process holds of the kernel while the operation waits in this
    /// state.
    spec fn holds(self) -> Holdings;

    /// An upper bound on the requests that the operation still makes, the one
    /// it waits for included.
    spec fn remaining(self) -> nat;

    /// Whatever the kernel answers: the operation asks only for what makes
    /// sense for the holdings of the process, stays with its provider, and
    /// comes nearer to its end with every answer. An allocation ends with a
    /// region of that provider that is mapped, pinned, writable and zero, or
    /// with nothing held. A release ends with nothing held, whatever the
    /// kernel answered on the way. No page goes back to the kernel with data
    /// in it, and no descriptor stays open.
    proof fn lemma_step(self, reply: Reply)
        ensures
            self.holds().allows(self.call()),
            self.remaining() > 0,
            match self.next(reply) {
                StepView::Continue(then) => {
                    &&& then.backend() == self.backend()
                    &&& then.releasing() == self.releasing()
                    &&& then.remaining() < self.remaining()
                    &&& then.holds() == self.holds().apply(self.call(), reply)
                },
                StepView::Allocated(region) => {
                    &&& !self.releasing()
                    &&& region.origin == self.backend()
                    &&& region.protection == Protection::ReadWrite
                    &&& self.holds().apply(self.call(), reply) == (Holdings {
                        clean: true,
                        ..region.holdings()
                    })
                },
                StepView::Released => {
                    &&& self.releasing()
                    &&& self.holds().apply(self.call(), reply) == Holdings::nothing()
                },
                StepView::Failed(error) => self.holds().apply(self.call(), reply)
                    == Holdings::nothing(),
            },
    ;

    /// An operation never changes the length it works with: it asks for a
    /// mapping of that length, and the region it hands out has it.
    proof fn lemma_span(self, reply: Reply, len: usize)
        requires
            self.len() matches Some(l) ==> l == len,
        ensures
            self.call() matches Call::Reserve { len: asked, .. } ==> asked == len,
            match self.next(reply) {
                StepView::Continue(then) => then.len() matches Some(l) ==> l == len,
                StepView::Allocated(region) => region.len == len,
                _ => true,
            },
    ;
}

/// The interface of every provider of secret memory, whatever the platform.
///
/// An operation that takes several kernel requests is begun by `allocate` or
/// `dealloc`, which hand out its state. The state names the request to make
/// (`call`); `resume` takes the kernel's answer and says how the operation goes
/// on. A change of protection is a single request, and the kernel's answer to it
/// is the outcome.
pub trait SecretAllocator {
    /// Where an operation of this provider can stand.
    type State: Operation;

    /// An allocation or a release that waits for the kernel. Its view is
    /// where it stands.
    type Pending: View<V = Self::State>;

    /// Whether regions of `origin` are this provider's to change and to
    /// release: a region is handled by the provider it came from alone.
    spec fn owns(&self, origin: Backend) -> bool;

    /// Begins the allocation of a zero-initialized, readable and writable
    /// region for `layout`, rounded to whole pages of `page_size` bytes.
    fn allocate(&self, layout: Layout, page_size: usize) -> (pending: Self::Pending)
        requires
            layout.wf(),
            page_size > 0,
        ensures
            !pending@.releasing(),
            pending@.holds() == Holdings::nothing(),
            pending@.len() == Some(
                round_up(layout.size() as int, granule(layout.align() as int, page_size as int))
                    as usize,
            ),
    ;

    /// The request that makes the whole of `region` read-only.
    fn make_read_only(&self, region: &Region) -> (call: Call)
        requires
            self.owns(region@.origin),
        ensures
            call == (Call::Protect {
                addr: region@.base,
                len: region@.len,
                protection: Protection::ReadOnly,
            }),
    ;

    /// The request that makes the whole of `region` readable and writable.
    fn make_writable(&self, region: &Region) -> (call: Call)
        requires
            self.owns(region@.origin),
        ensures
            call == (Call::Protect {
                addr: region@.base,
                len: region@.len,
                protection: Protection::ReadWrite,
            }),
    ;

    /// Begins the release of `region`: write access is asked for, the bytes
    /// are zeroed whether or not the kernel granted it, and only then do the
    /// pages go back to the kernel.
    fn dealloc(&self, region: Region) -> (pending: Self::Pending)
        requires
            self.owns(region@.origin),
        ensures
            pending@.releasing(),
            pending@.backend() == region@.origin,
            pending@.len() == Some(region@.len),
            pending@.holds() == region@.holdings(),
            pending@.call() == (Call::Protect {
                addr: region@.base,
                len: region@.len,
                protection: Protection::ReadWrite,
            }),
    ;

    /// The request that `pending` waits for.
    fn call(&self, pending: &Self::Pending) -> (call: Call)
        ensures
            call == pending@.call(),
    ;

    /// Takes the kernel's answer to the request that `pending` waits for.
    fn resume(&self, pending: Self::Pending, reply: Reply) -> (step: Step<Self::Pending>)
        ensures
            step@ == pending@.next(reply),
    ;
}

/// The kind of system that the process runs on.
#[derive(Clone, Copy, Debug, PartialEq, Eq, Structural)]
pub enum Platform {
    Linux,
    /// A Unix system other than Linux.
    Unix,
    Windows,
}

/// The provider of a process: the one chosen earlier where there is one, else
/// the most isolating one that the system supports.
pub open spec fn selected(chosen: Option<Backend>, platform: Platform, secret_memory: bool)
    -> Backend {
    match chosen {
        Some(backend) => backend,
        None => match platform {
            Platform::Linux => if secret_memory {
                Backend::Linux
            } else {
                Backend::Unix
            },
            Platform::Unix => Backend::Unix,
            Platform::Windows => Backend::Windows,
        },
    }
}

/// Returns the provider of the process. `chosen` is what an earlier call
/// returned, if there was one: the choice is made once and never again.
/// `secret_memory` says whether the kernel offers secret-memory descriptors;
/// where a Linux kernel does not, the Unix provider takes over.
pub fn platform_secret_allocator(
    chosen: Option<Backend>,
    platform: Platform,
    secret_memory: bool,
) -> (backend: Backend)
    ensures
        backend == selected(chosen, platform, secret_memory),
        chosen matches Some(earlier) ==> backend == earlier,
{
    match chosen {
        Some(backend) => backend,
        None => match platform {
            Platform::Linux => if secret_memory {
                Backend::Linux
            } else {
                Backend::Unix
            },
            Platform::Unix => Backend::Unix,
            Platform::Windows => Backend::Windows,
        },
    }
}

/// Where an allocation or a release of any provider stands.
#[derive(Clone, Copy, Debug, PartialEq, Eq, Structural)]
pub enum State {
    Linux(LinuxState),
    Unix(UnixState),
    Windows(WindowsState),
}

/// An allocation or a release of any provider that waits for the kernel.
pub enum Pending {
    Linux(LinuxPending),
    Unix(UnixPending),
    Windows(WindowsPending),
}

impl View for Pending {
    type V = State;

    open spec fn view(&self) -> State {
        match self {
            Pending::Linux(pending) => State::Linux(pending@),
            Pending::Unix(pending) => State::Unix(pending@),
            Pending::Windows(pending) => State::Windows(pending@),
        }
    }
}

/// `step` of one provider as a step of any provider.
pub open spec fn lifted<P>(step: StepView<P>, wrap: spec_fn(P) -> State) -> StepView<State> {
    match step {
        StepView::Continue(pending) => StepView::Continue(wrap(pending)),
        StepView::Allocated(region) => StepView::Allocated(region),
        StepView::Released => StepView::Released,
        StepView::Failed(error) => StepView::Failed(error),
    }
}

impl State {
    /// The state in which `backend` begins the allocation of `len` bytes.
    pub open spec fn allocating(backend: Backend, len: usize) -> State {
        match backend {
            Backend::Linux => State::Linux(LinuxState::Opening { len }),
            Backend::Unix => State::Unix(UnixState::Mapping { len }),
            Backend::Windows => State::Windows(WindowsState::Committing { len }),
        }
    }

    /// The state in which the release of `region` begins.
    pub open spec fn restoring(region: RegionView) -> State {
        let addr = region.base;
        let len = region.len;
        let writable = region.protection == Protection::ReadWrite;
        match region.origin {
            Backend::Linux => State::Linux(LinuxState::Restoring { addr, len, writable }),
            Backend::Unix => State::Unix(UnixState::Restoring { addr, len, writable }),
            Backend::Windows => State::Windows(
                WindowsState::Restoring { addr, len, writable },
            ),
        }
    }

}

impl Operation for State {
    /// The provider that runs the operation.
    open spec fn backend(self) -> Backend {
        match self {
            State::Linux(_) => Backend::Linux,
            State::Unix(_) => Backend::Unix,
            State::Windows(_) => Backend::Windows,
        }
    }

    /// Whether this is a state of a release rather than of an allocation.
    open spec fn releasing(self) -> bool {
        match self {
            State::Linux(pending) => pending.releasing(),
            State::Unix(pending) => pending.releasing(),
            State::Windows(pending) => pending.releasing(),
        }
    }

    open spec fn len(self) -> Option<usize> {
        match self {
            State::Linux(pending) => pending.len(),
            State::Unix(pending) => pending.len(),
            State::Windows(pending) => pending.len(),
        }
    }

    /// The request that the operation waits for.
    open spec fn call(self) -> Call {
        match self {
            State::Linux(pending) => pending.call(),
            State::Unix(pending) => pending.call(),
            State::Windows(pending) => pending.call(),
        }
    }

    /// How the operation goes on once the kernel has answered with `reply`.
    open spec fn next(self, reply: Reply) -> StepView<State> {
        match self {
            State::Linux(pending) => lifted(pending.next(reply), |p| State::Linux(p)),
            State::Unix(pending) => lifted(pending.next(reply), |p| State::Unix(p)),
            State::Windows(pending) => lifted(pending.next(reply), |p| State::Windows(p)),
        }
    }

    /// What the process holds of the kernel while the operation waits in this
    /// state.
    open spec fn holds(self) -> Holdings {
        match self {
            State::Linux(pending) => pending.holds(),
            State::Unix(pending) => pending.holds(),
            State::Windows(pending) => pending.holds(),
        }
    }

    /// An upper bound on the requests that the operation still makes, the one
    /// it waits for included.
    open spec fn remaining(self) -> nat {
        match self {
            State::Linux(pending) => pending.remaining(),
            State::Unix(pending) => pending.remaining(),
            State::Windows(pending) => pending.remaining(),
        }
    }

    proof fn lemma_step(self, reply: Reply) {
        match self {
            State::Linux(pending) => pending.lemma_step(reply),
            State::Unix(pending) => pending.lemma_step(reply),
            State::Windows(pending) => pending.lemma_step(reply),
        }
    }

    proof fn lemma_span(self, reply: Reply, len: usize) {
        match self {
            State::Linux(pending) => pending.lemma_span(reply, len),
            State::Unix(pending) => pending.lemma_span(reply, len),
            State::Windows(pending) => pending.lemma_span(reply, len),
        }
    }
}

/// How an operation that waits in `pending` has ended once the kernel has
/// given the answers `replies`, one after the other; `None` while it still
/// waits. Answers beyond the end of the operation are not looked at.
pub open spec fn outcome<P: Operation>(pending: P, replies: Seq<Reply>) -> Option<StepView<P>>
    decreases replies.len(),
{
    if replies.len() == 0 {
        None
    } else {
        match pending.next(replies[0]) {
            StepView::Continue(then) => outcome(then, replies.skip(1)),
            end => Some(end),
        }
    }
}

/// What the process holds of the kernel once the kernel has given the answers
/// `replies` to an operation that waited in `pending`.
pub open spec fn held_after<P: Operation>(pending: P, replies: Seq<Reply>) -> Holdings
    decreases replies.len(),
{
    if replies.len() == 0 {
        pending.holds()
    } else {
        match pending.next(replies[0]) {
            StepView::Continue(then) => held_after(then, replies.skip(1)),
            _ => pending.holds().apply(pending.call(), replies[0]),
        }
    }
}

/// For every operation of every provider and every sequence of answers of the
/// kernel: the operation has ended after as many answers as `remaining` says,
/// and it ends all or nothing. An allocation that succeeds leaves the process
/// with exactly the region it hands out, mapped, pinned, writable and zero; one
/// that fails leaves it with nothing. A release leaves it with nothing,
/// whether the kernel granted or refused what was asked on the way.
pub proof fn lemma_all_or_nothing<P: Operation>(pending: P, replies: Seq<Reply>)
    ensures
        replies.len() >= pending.remaining() ==> outcome(pending, replies).is_some(),
        match outcome(pending, replies) {
            None => true,
            Some(StepView::Continue(_)) => false,
            Some(StepView::Allocated(region)) => {
                &&& !pending.releasing()
                &&& region.origin == pending.backend()
                &&& region.protection == Protection::ReadWrite
                &&& held_after(pending, replies) == (Holdings { clean: true, ..region.holdings() })
            },
            Some(StepView::Released) => {
                &&& pending.releasing()
                &&& held_after(pending, replies) == Holdings::nothing()
            },
            Some(StepView::Failed(error)) => held_after(pending, replies) == Holdings::nothing(),
        },
    decreases replies.len(),
{
    if replies.len() > 0 {
        pending.lemma_step(replies[0]);
        match pending.next(replies[0]) {
            StepView::Continue(then) => lemma_all_or_nothing(then, replies.skip(1)),
            _ => {},
        }
    } else {
        pending.lemma_step(Ok(0));
    }
}

/// No provider gives pages back before every byte of them is zero, and what
/// it zeroes is the whole of the mapping it holds.
pub proof fn lemma_zeroed_before_release<P: Operation>(pending: P)
    ensures
        pending.call() matches Call::Release { addr, len } ==> pending.holds().maps(addr, len)
            && pending.holds().clean,
        pending.call() matches Call::Zero { addr, len } ==> pending.holds().maps(addr, len),
{
    pending.lemma_step(Ok(0));
}

/// Whatever the kernel answers, the region that an allocation hands out is as
/// long as the request rounded up to whole pages: a multiple of the larger of
/// alignment and page size, and not shorter than the request.
pub proof fn lemma_region_is_page_aligned(
    backend: Backend,
    layout: Layout,
    page_size: usize,
    replies: Seq<Reply>,
)
    requires
        layout.wf(),
        page_size > 0,
    ensures
        ({
            let unit = granule(layout.align() as int, page_size as int);
            let len = round_up(layout.size() as int, unit);
            outcome(State::allocating(backend, len as usize), replies) matches Some(
                StepView::Allocated(region),
            ) ==> region.len == len && region.len as int % unit == 0 && region.len
                >= layout.size()
        }),
{
    let unit = granule(layout.align() as int, page_size as int);
    let len = round_up(layout.size() as int, unit);
    lemma_round_up_bounds(layout.size() as int, unit);
    lemma_round_up_fits(layout.size(), unit as usize);
    lemma_allocated_len(State::allocating(backend, len as usize), replies, len as usize);
}

/// The region that an operation hands out has the length that the operation
/// works with.
pub proof fn lemma_allocated_len<P: Operation>(pending: P, replies: Seq<Reply>, len: usize)
    requires
        pending.len() matches Some(l) ==> l == len,
    ensures
        outcome(pending, replies) matches Some(StepView::Allocated(region)) ==> region.len
            == len,
    decreases replies.len(),
{
    if replies.len() > 0 {
        pending.lemma_span(replies[0], len);
        match pending.next(replies[0]) {
            StepView::Continue(then) => lemma_allocated_len(then, replies.skip(1), len),
            _ => {},
        }
    }
}

/// Whether the kernel grants every request it is asked in `replies`.
pub open spec fn all_granted(replies: Seq<Reply>) -> bool {
    forall|i: int| 0 <= i < replies.len() ==> (#[trigger] replies[i]).is_ok()
}

/// Whichever provider the selector has chosen, the preferred one or the one
/// it fell back to: where the kernel grants every request, an allocation ends
/// with a region of that provider, of the length asked for, readable and
/// writable.
pub proof fn lemma_granted_allocation_succeeds(backend: Backend, len: usize, replies: Seq<Reply>)
    requires
        all_granted(replies),
        replies.len() >= State::allocating(backend, len).remaining(),
    ensures
        outcome(State::allocating(backend, len), replies) matches Some(
            StepView::Allocated(region),
        ) && region.origin == backend && region.len == len && region.protection
            == Protection::ReadWrite && region.base == match backend {
            Backend::Linux => replies[2].unwrap(),
            _ => replies[0].unwrap(),
        },
{
    reveal_with_fuel(outcome, 5);
    let second = replies.skip(1);
    let third = second.skip(1);
    let fourth = third.skip(1);
    assert(replies[0].is_ok());
    assert(second[0] == replies[1]);
    if backend != Backend::Windows {
        assert(third[0] == replies[2]);
    }
    if backend == Backend::Linux {
        assert(fourth[0] == replies[3]);
    }
}

/// Whichever provider a region came from: where the kernel grants every
/// request, its release ends released.
pub proof fn lemma_granted_release_succeeds(region: RegionView, replies: Seq<Reply>)
    requires
        all_granted(replies),
        replies.len() >= State::restoring(region).remaining(),
    ensures
        outcome(State::restoring(region), replies) == Some(StepView::<State>::Released),
{
    reveal_with_fuel(outcome, 6);
    let second = replies.skip(1);
    let third = second.skip(1);
    let fourth = third.skip(1);
    let fifth = fourth.skip(1);
    assert(replies[0].is_ok());
    assert(second[0] == replies[1]);
    assert(third[0] == replies[2]);
    if region.origin != Backend::Linux {
        assert(fourth[0] == replies[3]);
    }
    if region.origin == Backend::Unix {
        assert(fifth[0] == replies[4]);
    }
}

impl SecretAllocator for Backend {
    type State = State;

    type Pending = Pending;

    /// The selector's provider hands every region to the provider it came
    /// from.
    open spec fn owns(&self, origin: Backend) -> bool {
        true
    }

    fn allocate(&self, layout: Layout, page_size: usize) -> (pending: Pending)
        ensures
            pending@ == State::allocating(
                *self,
                round_up(layout.size() as int, granule(layout.align() as int, page_size as int))
                    as usize,
            ),
            pending@.backend() == *self,
    {
        match self {
            Backend::Linux => Pending::Linux(LinuxSecretAllocator.allocate(layout, page_size)),
            Backend::Unix => Pending::Unix(UnixSecretAllocator.allocate(layout, page_size)),
            Backend::Windows => Pending::Windows(
                WindowsSecretAllocator.allocate(layout, page_size),
            ),
        }
    }

    fn make_read_only(&self, region: &Region) -> (call: Call) {
        region.protect(Protection::ReadOnly)
    }

    fn make_writable(&self, region: &Region) -> (call: Call) {
        region.protect(Protection::ReadWrite)
    }

    /// The release is run by the provider that the region came from.
    fn dealloc(&self, region: Region) -> (pending: Pending)
        ensures
            pending@ == State::restoring(region@),
    {
        match region.origin() {
            Backend::Linux => Pending::Linux(LinuxSecretAllocator.dealloc(region)),
            Backend::Unix => Pending::Unix(UnixSecretAllocator.dealloc(region)),
            Backend::Windows => Pending::Windows(WindowsSecretAllocator.dealloc(region)),
        }
    }

    fn call(&self, pending: &Pending) -> (call: Call)
        ensures
            call == pending@.call(),
    {
        match pending {
            Pending::Linux(pending) => LinuxSecretAllocator.call(pending),
            Pending::Unix(pending) => UnixSecretAllocator.call(pending),
            Pending::Windows(pending) => WindowsSecretAllocator.call(pending),
        }
    }

    fn resume(&self, pending: Pending, reply: Reply) -> (step: Step<Pending>)
        ensures
            step@ == pending@.next(reply),
    {
        match pending {
            Pending::Linux(pending) => match LinuxSecretAllocator.resume(pending, reply) {
                Step::Continue(then) => Step::Continue(Pending::Linux(then)),
                Step::Allocated(region) => Step::Allocated(region),
                Step::Released => Step::Released,
                Step::Failed(error) => Step::Failed(error),
            },
            Pending::Unix(pending) => match UnixSecretAllocator.resume(pending, reply) {
                Step::Continue(then) => Step::Continue(Pending::Unix(then)),
                Step::Allocated(region) => Step::Allocated(region),
                Step::Released => Step::Released,
                Step::Failed(error) => Step::Failed(error),
            },
            Pending::Windows(pending) => match WindowsSecretAllocator.resume(pending, reply) {
                Step::Continue(then) => Step::Continue(Pending::Windows(then)),
                Step::Allocated(region) => Step::Allocated(region),
                Step::Released => Step::Released,
                Step::Failed(error) => Step::Failed(error),
            },
        }
    }
}

} // verus!
