//! The kernel memory provider, seen from the outside: the requests a provider
//! can make of it ([`Call`]), its answers ([`Reply`]), and a model of what each
//! answered request does to the resources the process holds ([`Holdings`]).

use vstd::prelude::*;

verus! {

/// The operating system's error detail for a request that failed.
#[derive(Clone, Copy, Debug, PartialEq, Eq, Structural)]
pub struct OsError {
    pub code: i32,
}

/// The kernel's answer to a [`Call`]: on success the handle it returned (a
/// descriptor for [`Call::OpenSecret`], an address for [`Call::Reserve`], of no
/// meaning for the others), on failure the error.
pub type Reply = Result<usize, OsError>;

/// The access that a region's pages allow.
#[derive(Clone, Copy, Debug, PartialEq, Eq, Structural)]
pub enum Protection {
    ReadOnly,
    ReadWrite,
}

/// Where the pages of a new mapping come from.
#[derive(Clone, Copy, Debug, PartialEq, Eq, Structural)]
pub enum Source {
    /// A private anonymous mapping.
    Anonymous,
    /// A shared mapping of a secret-memory descriptor: pages that only this
    /// process can see and that never reach swap or a core dump.
    Secret { fd: usize },
    /// Reserved and committed virtual memory that bypasses the cache.
    Committed,
}

/// What a provider tells the kernel about core dumps.
#[derive(Clone, Copy, Debug, PartialEq, Eq, Structural)]
pub enum Advice {
    ExcludeFromDumps,
    IncludeInDumps,
}

/// One request to the kernel.
#[derive(Clone, Copy, Debug, PartialEq, Eq, Structural)]
pub enum Call {
    /// Create a secret-memory descriptor.
    OpenSecret,
    /// Set the length of what a descriptor stands for.
    Resize { fd: usize, len: usize },
    /// Close a descriptor.
    Close { fd: usize },
    /// Map `len` zero-initialized, readable and writable bytes.
    Reserve { len: usize, source: Source },
    /// Pin the pages in physical memory.
    Pin { addr: usize, len: usize },
    /// Undo `Pin`.
    Unpin { addr: usize, len: usize },
    /// Say whether the pages belong in a core dump.
    Advise { addr: usize, len: usize, advice: Advice },
    /// Change the protection of the pages.
    Protect { addr: usize, len: usize, protection: Protection },
    /// Overwrite every byte with zero, in a way no optimizer removes.
    Zero { addr: usize, len: usize },
    /// Give the pages back.
    Release { addr: usize, len: usize },
}

/// What the process holds of the kernel while one provider operation runs: at
/// most one descriptor and one mapping.
///
/// An acquisition counts once the kernel has granted it. A release counts from
/// the moment it is asked for: where the kernel refuses one there is nothing
/// more a provider could do. A zeroing that has been answered has written
/// every byte, so the pages could be written: on pages that cannot, the
/// process does not outlive the attempt.
pub struct Holdings {
    /// The open secret-memory descriptor.
    pub descriptor: Option<usize>,
    /// Address and length of the mapping.
    pub mapping: Option<(usize, usize)>,
    /// The mapping cannot be swapped out.
    pub pinned: bool,
    /// The mapping stays out of core dumps.
    pub hidden: bool,
    /// The mapping can be written.
    pub writable: bool,
    /// Every byte of the mapping is zero.
    pub clean: bool,
}

impl Holdings {
    /// Neither descriptor nor mapping.
    pub open spec fn nothing() -> Holdings {
        Holdings {
            descriptor: None,
            mapping: None,
            pinned: false,
            hidden: false,
            writable: false,
            clean: false,
        }
    }

    /// Whether `addr` and `len` name the mapping that is held.
    pub open spec fn maps(self, addr: usize, len: usize) -> bool {
        self.mapping == Some((addr, len))
    }

    /// Whether `call` makes sense for a process with these holdings: it neither
    /// acquires a second descriptor or mapping, nor names one that is not held,
    /// nor gives back pages that still hold data. Zeroing is asked for whether
    /// or not the pages are known to be writable: it has to be attempted.
    pub open spec fn allows(self, call: Call) -> bool {
        match call {
            Call::OpenSecret => self.descriptor.is_none(),
            Call::Resize { fd, len } => self.descriptor == Some(fd),
            Call::Close { fd } => self.descriptor == Some(fd),
            Call::Reserve { len, source } => self.mapping.is_none() && (source matches Source::Secret {
                fd,
            } ==> self.descriptor == Some(fd)),
            Call::Pin { addr, len } => self.maps(addr, len),
            Call::Unpin { addr, len } => self.maps(addr, len),
            Call::Advise { addr, len, advice } => self.maps(addr, len),
            Call::Protect { addr, len, protection } => self.maps(addr, len),
            Call::Zero { addr, len } => self.maps(addr, len),
            Call::Release { addr, len } => self.maps(addr, len) && self.clean,
        }
    }

    /// The holdings once the kernel has answered `call` with `reply`.
    pub open spec fn apply(self, call: Call, reply: Reply) -> Holdings {
        match call {
            Call::OpenSecret => match reply {
                Ok(fd) => Holdings { descriptor: Some(fd), ..self },
                Err(_) => self,
            },
            Call::Resize { fd, len } => self,
            Call::Close { fd } => Holdings { descriptor: None, ..self },
            Call::Reserve { len, source } => match reply {
                Ok(addr) => Holdings {
                    descriptor: self.descriptor,
                    mapping: Some((addr, len)),
                    pinned: source is Secret,
                    hidden: source is Secret,
                    writable: true,
                    clean: true,
                },
                Err(_) => self,
            },
            Call::Pin { addr, len } => Holdings { pinned: self.pinned || reply.is_ok(), ..self },
            Call::Unpin { addr, len } => Holdings { pinned: false, ..self },
            Call::Advise { addr, len, advice } => match advice {
                Advice::ExcludeFromDumps => Holdings {
                    hidden: self.hidden || reply.is_ok(),
                    ..self
                },
                Advice::IncludeInDumps => Holdings { hidden: false, ..self },
            },
            Call::Protect { addr, len, protection } => match reply {
                Ok(_) => Holdings { writable: protection == Protection::ReadWrite, ..self },
                Err(_) => self,
            },
            Call::Zero { addr, len } => Holdings { writable: true, clean: true, ..self },
            Call::Release { addr, len } => Holdings { descriptor: self.descriptor, ..Self::nothing() },
        }
    }
}

/// Returns the page size of the system: the cached one where there is one, else
/// the one the operating system has just reported, which the caller caches.
/// A report that is not positive is no page size.
pub fn page_size(cached: Option<usize>, reported: isize) -> (size: Option<usize>)
    ensures
        cached.is_some() ==> size == cached,
        cached.is_none() && reported > 0 ==> size == Some(reported as usize),
        cached.is_none() && reported <= 0 ==> size.is_none(),
{
    match cached {
        Some(size) => Some(size),
        None => if reported > 0 {
            Some(reported as usize)
        } else {
            None
        },
    }
}

/// Overwrites every byte with zero by `<[u8] as zeroize::Zeroize>::zeroize`,
/// whose writes are volatile, so that no optimizer removes them. The slice
/// keeps its length. A slice longer than `isize::MAX` is left out: the outside
/// function asserts that there is none.
#[verifier::external_body]
fn zeroize_bytes(bytes: &mut [u8])
    requires
        old(bytes)@.len() <= isize::MAX,
    ensures
        final(bytes)@.len() == old(bytes)@.len(),
        forall|i: int| 0 <= i < final(bytes)@.len() ==> final(bytes)@[i] == 0u8,
{
    zeroize::Zeroize::zeroize(bytes)
}

/// Carries out `call` on `bytes`, the bytes of the mapping that the caller
/// holds, if `call` asks for just these bytes to be zeroed: then every byte is
/// zero afterwards and the answer to the call is returned. For any other call,
/// or a span of another length, `bytes` is left as it is and there is no
/// answer.
pub fn zero(call: Call, bytes: &mut [u8]) -> (reply: Option<Reply>)
    requires
        old(bytes)@.len() <= isize::MAX,
    ensures
        final(bytes)@.len() == old(bytes)@.len(),
        reply.is_some() <==> (call matches Call::Zero { addr, len } && len == old(bytes)@.len()),
        reply.is_some() ==> reply == Some(Ok::<usize, OsError>(0)) && forall|i: int|
            0 <= i < final(bytes)@.len() ==> final(bytes)@[i] == 0u8,
        reply.is_none() ==> final(bytes)@ == old(bytes)@,
{
    match call {
        Call::Zero { addr, len } => {
            if len == bytes.len() {
                zeroize_bytes(bytes);
                Some(Ok(0))
            } else {
                None
            }
        },
        _ => None,
    }
}

/// Reads the kernel's answer to a trial [`Call::OpenSecret`]: secret-memory
/// descriptors are available exactly if the kernel granted one, and a
/// descriptor that was granted has to be closed again, which is the request
/// returned beside the verdict.
pub fn memfd_secret_available(reply: Reply) -> (probe: (bool, Option<Call>))
    ensures
        probe.0 == reply.is_ok(),
        probe.1 == match reply {
            Ok(fd) => Some(Call::Close { fd }),
            Err(_) => None,
        },
{
    match reply {
        Ok(fd) => (true, Some(Call::Close { fd })),
        Err(_) => (false, None),
    }
}

} // verus!
