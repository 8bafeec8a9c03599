//! The providers and the container, run against a kernel that lives in the
//! test: it keeps the bytes of every mapping, refuses what it is told to
//! refuse, and hands freed pages out again as they are.

use std::collections::{HashMap, HashSet};

use secret_memory::allocator::ffi::{zero, Advice, Call, OsError, Protection, Reply, Source};
use secret_memory::allocator::linux::LinuxSecretAllocator;
use secret_memory::allocator::unix::UnixSecretAllocator;
use secret_memory::allocator::util::{AlignedSize, Layout};
use secret_memory::allocator::windows::WindowsSecretAllocator;
use secret_memory::allocator::{
    platform_secret_allocator, Backend, Pending, Platform, Region, SecretAllocator, Step,
};
use secret_memory::marker::{Locked, Unlocked};
use secret_memory::SecretBox;

const PAGE: usize = 4096;

struct Page {
    bytes: Vec<u8>,
    writable: bool,
    pinned: bool,
    hidden: bool,
}

struct Kernel {
    mapped: HashMap<usize, Page>,
    freed: Vec<Vec<u8>>,
    descriptors: HashSet<usize>,
    next_addr: usize,
    next_fd: usize,
    refuse: Vec<usize>,
    calls: Vec<Call>,
}

impl Kernel {
    fn new() -> Kernel {
        Kernel {
            mapped: HashMap::new(),
            freed: Vec::new(),
            descriptors: HashSet::new(),
            next_addr: 0x10000,
            next_fd: 3,
            refuse: Vec::new(),
            calls: Vec::new(),
        }
    }

    /// A kernel that refuses the calls with the given positions, counted from 0.
    fn refusing(positions: &[usize]) -> Kernel {
        let mut kernel = Kernel::new();
        kernel.refuse = positions.to_vec();
        kernel
    }

    fn perform(&mut self, call: Call) -> Reply {
        let position = self.calls.len();
        self.calls.push(call);
        if self.refuse.contains(&position) {
            return Err(OsError { code: 12 });
        }
        match call {
            Call::OpenSecret => {
                let fd = self.next_fd;
                self.next_fd += 1;
                self.descriptors.insert(fd);
                Ok(fd)
            }
            Call::Resize { fd, .. } => {
                assert!(self.descriptors.contains(&fd));
                Ok(0)
            }
            Call::Close { fd } => {
                assert!(self.descriptors.remove(&fd));
                Ok(0)
            }
            Call::Reserve { len, source } => {
                if let Source::Secret { fd } = source {
                    assert!(self.descriptors.contains(&fd));
                }
                let recycled = self.freed.iter().position(|old| old.len() == len);
                let bytes = match recycled {
                    Some(at) => self.freed.remove(at),
                    None => vec![0u8; len],
                };
                let addr = self.next_addr;
                self.next_addr += len.max(PAGE);
                let secret = matches!(source, Source::Secret { .. });
                self.mapped.insert(addr, Page { bytes, writable: true, pinned: secret, hidden: secret });
                Ok(addr)
            }
            Call::Pin { addr, len } => {
                let page = self.page(addr, len);
                page.pinned = true;
                Ok(0)
            }
            Call::Unpin { addr, len } => {
                let page = self.page(addr, len);
                page.pinned = false;
                Ok(0)
            }
            Call::Advise { addr, len, advice } => {
                let page = self.page(addr, len);
                page.hidden = advice == Advice::ExcludeFromDumps;
                Ok(0)
            }
            Call::Protect { addr, len, protection } => {
                let page = self.page(addr, len);
                page.writable = protection == Protection::ReadWrite;
                Ok(0)
            }
            Call::Zero { addr, len } => {
                let page = self.page(addr, len);
                assert!(page.writable, "zeroing a read-only page");
                zero(call, page.bytes.as_mut_slice()).expect("the call names these bytes")
            }
            Call::Release { addr, len } => {
                self.page(addr, len);
                let page = self.mapped.remove(&addr).unwrap();
                self.freed.push(page.bytes);
                Ok(0)
            }
        }
    }

    fn page(&mut self, addr: usize, len: usize) -> &mut Page {
        let page = self.mapped.get_mut(&addr).expect("no mapping at this address");
        assert_eq!(page.bytes.len(), len);
        page
    }

    fn write(&mut self, region: &Region, bytes: &[u8]) -> Result<(), ()> {
        let page = self.page(region.base(), region.len());
        if !page.writable || bytes.len() > page.bytes.len() {
            return Err(());
        }
        page.bytes[..bytes.len()].copy_from_slice(bytes);
        Ok(())
    }

    fn read(&mut self, region: &Region, len: usize) -> Vec<u8> {
        self.page(region.base(), region.len()).bytes[..len].to_vec()
    }

    fn holds_nothing(&self) -> bool {
        self.mapped.is_empty() && self.descriptors.is_empty()
    }
}

fn drive<A: SecretAllocator>(
    kernel: &mut Kernel,
    provider: &A,
    mut pending: A::Pending,
) -> Result<Option<Region>, OsError> {
    loop {
        let call = provider.call(&pending);
        let reply = kernel.perform(call);
        match provider.resume(pending, reply) {
            Step::Continue(then) => pending = then,
            Step::Allocated(region) => return Ok(Some(region)),
            Step::Released => return Ok(None),
            Step::Failed(error) => return Err(error),
        }
    }
}

fn allocate<A: SecretAllocator>(
    kernel: &mut Kernel,
    provider: &A,
    layout: Layout,
) -> Result<Region, OsError> {
    let pending = provider.allocate(layout, PAGE);
    drive(kernel, provider, pending).map(|region| region.expect("an allocation ends with a region"))
}

fn release<A: SecretAllocator>(
    kernel: &mut Kernel,
    provider: &A,
    region: Region,
) -> Result<(), OsError> {
    let pending = provider.dealloc(region);
    drive(kernel, provider, pending).map(|region| assert!(region.is_none()))
}

fn protect(kernel: &mut Kernel, call: Call) -> Reply {
    kernel.perform(call)
}

fn boxed<T>(kernel: &mut Kernel, value: T) -> SecretBox<T> {
    let backend = platform_secret_allocator(None, Platform::Linux, true);
    let layout = Layout::new::<T>().expect("the type has a layout");
    match SecretBox::new(value, allocate(kernel, &backend, layout)) {
        Ok(secret) => secret,
        Err(_) => panic!("Unable to allocate secret memory"),
    }
}

fn lock<T>(kernel: &mut Kernel, secret: SecretBox<T>) -> Result<SecretBox<T, Locked>, SecretBox<T>> {
    let reply = protect(kernel, secret.lock_call());
    secret.lock(reply)
}

fn unlock<T>(
    kernel: &mut Kernel,
    secret: SecretBox<T, Locked>,
) -> Result<SecretBox<T, Unlocked>, SecretBox<T, Locked>> {
    let reply = protect(kernel, secret.unlock_call());
    secret.unlock(reply)
}

fn drop_box<T, L: secret_memory::marker::LockState>(
    kernel: &mut Kernel,
    secret: SecretBox<T, L>,
) -> Result<(), OsError> {
    let backend = secret.as_region().origin();
    let (value, pending) = secret.release();
    drop(value);
    drive(kernel, &backend, pending).map(|region| assert!(region.is_none()))
}

fn expect_ok<V, E>(result: Result<V, E>, message: &str) -> V {
    match result {
        Ok(value) => value,
        Err(_) => panic!("{}", message),
    }
}

#[test]
fn test_secretbox_lock() {
    let mut kernel = Kernel::new();

    // Lock the SecretBox
    let secret = boxed(&mut kernel, 42);
    let locked_secret = expect_ok(lock(&mut kernel, secret), "Failed to lock SecretBox");

    // Verify the contents are still accessible
    assert_eq!(*locked_secret, 42, "Locked SecretBox should return the correct value");

    // Attempt to unlock the SecretBox
    let mut unlocked_secret =
        expect_ok(unlock(&mut kernel, locked_secret), "Failed to unlock SecretBox");

    // Check that we can modify the unlocked SecretBox
    *unlocked_secret = 100;

    // Check that we can lock it again
    let re_locked_secret =
        expect_ok(lock(&mut kernel, unlocked_secret), "Failed to re-lock SecretBox");
    assert_eq!(*re_locked_secret, 100, "Re-locked SecretBox should return the correct value");
}

#[test]
fn test_secretbox_eq() {
    let mut kernel = Kernel::new();
    let secret1 = boxed(&mut kernel, 42);
    let secret2 = boxed(&mut kernel, 42);
    let secret3 = boxed(&mut kernel, 100);

    assert!(secret1 == secret2, "SecretBoxes with equal values should be equal");
    assert!(secret1 != secret3, "SecretBoxes with different values should not be equal");
}

#[test]
fn test_secretbox_ord() {
    let mut kernel = Kernel::new();
    let secret1 = boxed(&mut kernel, 30);
    let secret2 = boxed(&mut kernel, 40);
    let secret3 = boxed(&mut kernel, 30);

    assert!(secret1 < secret2, "SecretBox should correctly compare values");
    assert!(secret1 <= secret3, "SecretBox should correctly compare values");
    assert!(secret2 > secret1, "SecretBox should correctly compare values");
    assert!(secret2 >= secret3, "SecretBox should correctly compare values");
}

#[test]
fn test_secretbox_hash() {
    let mut kernel = Kernel::new();
    let secret1 = boxed(&mut kernel, 42);
    let secret2 = boxed(&mut kernel, 42);
    let secret3 = boxed(&mut kernel, 100);

    let mut set = HashSet::new();
    set.insert(secret1);
    assert!(set.contains(&secret2), "HashSet should contain equal SecretBox");
    assert!(!set.contains(&secret3), "HashSet should not contain different SecretBox");
}

#[test]
fn test_secretbox_deref() {
    let mut kernel = Kernel::new();
    let secret = boxed(&mut kernel, 100);
    assert_eq!(*secret, 100, "Dereferencing SecretBox should return the stored value");
}

#[test]
fn test_secretbox_deref_mut() {
    let mut kernel = Kernel::new();
    let mut secret = boxed(&mut kernel, 100);
    *secret = 200;
    assert_eq!(*secret, 200, "SecretBox should allow mutable dereference");
}

#[test]
fn test_unix_implementation() {
    let mut kernel = Kernel::new();
    let allocator = UnixSecretAllocator::new();
    let layout = Layout::from_size_align(1024, 8).unwrap(); // Allocate 1KB with 8-byte alignment

    // Assert that allocation was successful
    let result = allocate(&mut kernel, &allocator, layout);
    assert!(result.is_ok());
    let region = result.unwrap();

    // Attempt to write into the allocation
    let result = kernel.write(&region, "Hello, World!".as_bytes());
    assert!(result.is_ok());

    // Assert that make_readonly was successful
    let result = protect(&mut kernel, allocator.make_read_only(&region));
    assert!(result.is_ok());

    // Attempt to read from the allocation
    let bytes = kernel.read(&region, layout.size());
    let result = std::str::from_utf8(&bytes);
    assert!(result.is_ok_and(|s| &s[..13] == "Hello, World!"));

    // Assert that deallocation was successful
    let result = release(&mut kernel, &allocator, region);
    assert!(result.is_ok());
}

#[test]
fn test_windows_implementation() {
    let mut kernel = Kernel::new();
    let allocator = WindowsSecretAllocator::new();
    let layout = Layout::from_size_align(1024, 8).unwrap(); // Allocate 1KB with 8-byte alignment

    // Assert that allocation was successful
    let result = allocate(&mut kernel, &allocator, layout);
    assert!(result.is_ok());
    let region = result.unwrap();

    // Attempt to write into the allocation
    let result = kernel.write(&region, "Hello, World!".as_bytes());
    assert!(result.is_ok());

    // Assert that make_readonly was successful
    let result = protect(&mut kernel, allocator.make_read_only(&region));
    assert!(result.is_ok());

    // Attempt to read from the allocation
    let bytes = kernel.read(&region, layout.size());
    let result = std::str::from_utf8(&bytes);
    assert!(result.is_ok_and(|s| &s[..13] == "Hello, World!"));

    // Assert that deallocation was successful
    let result = release(&mut kernel, &allocator, region);
    assert!(result.is_ok());
}

#[test]
fn linux_implementation_closes_its_descriptor() {
    let mut kernel = Kernel::new();
    let allocator = LinuxSecretAllocator::new();
    let layout = Layout::from_size_align(1024, 8).unwrap();

    let region = allocate(&mut kernel, &allocator, layout).unwrap();
    assert!(kernel.descriptors.is_empty());
    assert_eq!(
        kernel.calls,
        vec![
            Call::OpenSecret,
            Call::Resize { fd: 3, len: PAGE },
            Call::Reserve { len: PAGE, source: Source::Secret { fd: 3 } },
            Call::Close { fd: 3 },
        ]
    );
    assert_eq!(region.len(), PAGE);
    assert_eq!(region.origin(), Backend::Linux);
    assert_eq!(region.protection(), Protection::ReadWrite);
    assert!(kernel.mapped[&region.base()].pinned && kernel.mapped[&region.base()].hidden);

    assert!(release(&mut kernel, &allocator, region).is_ok());
    assert!(kernel.holds_nothing());
}

#[test]
fn unix_allocation_asks_in_order() {
    let mut kernel = Kernel::new();
    let allocator = UnixSecretAllocator::new();
    let layout = Layout::from_size_align(5000, 16).unwrap();
    assert_eq!(layout.page_aligned_size(PAGE), 8192);

    let region = allocate(&mut kernel, &allocator, layout).unwrap();
    let addr = region.base();
    assert_eq!(region.len(), 8192);
    assert_eq!(region.origin(), Backend::Unix);
    assert_eq!(
        kernel.calls,
        vec![
            Call::Reserve { len: 8192, source: Source::Anonymous },
            Call::Pin { addr, len: 8192 },
            Call::Advise { addr, len: 8192, advice: Advice::ExcludeFromDumps },
        ]
    );
    assert!(kernel.mapped[&addr].pinned && kernel.mapped[&addr].hidden);

    kernel.calls.clear();
    assert!(release(&mut kernel, &allocator, region).is_ok());
    assert_eq!(
        kernel.calls,
        vec![
            Call::Protect { addr, len: 8192, protection: Protection::ReadWrite },
            Call::Zero { addr, len: 8192 },
            Call::Advise { addr, len: 8192, advice: Advice::IncludeInDumps },
            Call::Unpin { addr, len: 8192 },
            Call::Release { addr, len: 8192 },
        ]
    );
    assert!(kernel.holds_nothing());
}

#[test]
fn unix_allocation_is_all_or_nothing() {
    let layout = Layout::from_size_align(64, 8).unwrap();
    let allocator = UnixSecretAllocator::new();

    // The mapping is refused: nothing to undo.
    let mut kernel = Kernel::refusing(&[0]);
    assert_eq!(allocate(&mut kernel, &allocator, layout).err(), Some(OsError { code: 12 }));
    assert_eq!(kernel.calls.len(), 1);
    assert!(kernel.holds_nothing());

    // The pin is refused: the mapping goes back.
    let mut kernel = Kernel::refusing(&[1]);
    assert_eq!(allocate(&mut kernel, &allocator, layout).err(), Some(OsError { code: 12 }));
    let addr = 0x10000;
    assert_eq!(
        kernel.calls,
        vec![
            Call::Reserve { len: PAGE, source: Source::Anonymous },
            Call::Pin { addr, len: PAGE },
            Call::Release { addr, len: PAGE },
        ]
    );
    assert!(kernel.holds_nothing());

    // The exclusion from core dumps is refused: pin and mapping go back.
    let mut kernel = Kernel::refusing(&[2]);
    assert_eq!(allocate(&mut kernel, &allocator, layout).err(), Some(OsError { code: 12 }));
    assert_eq!(
        kernel.calls,
        vec![
            Call::Reserve { len: PAGE, source: Source::Anonymous },
            Call::Pin { addr, len: PAGE },
            Call::Advise { addr, len: PAGE, advice: Advice::ExcludeFromDumps },
            Call::Unpin { addr, len: PAGE },
            Call::Release { addr, len: PAGE },
        ]
    );
    assert!(kernel.holds_nothing());
}

#[test]
fn unix_error_survives_a_refused_undo() {
    let allocator = UnixSecretAllocator::new();
    let layout = Layout::from_size_align(64, 8).unwrap();
    let mapping = allocator.allocate(layout, PAGE);
    let pinning = match allocator.resume(mapping, Ok(0x2000)) {
        Step::Continue(then) => then,
        _ => panic!("the mapping has to be pinned"),
    };
    assert_eq!(allocator.call(&pinning), Call::Pin { addr: 0x2000, len: PAGE });
    let first = OsError { code: 1 };
    let second = OsError { code: 2 };
    let undo = match allocator.resume(pinning, Err(first)) {
        Step::Continue(then) => then,
        _ => panic!("the mapping has to be undone"),
    };
    assert_eq!(allocator.call(&undo), Call::Release { addr: 0x2000, len: PAGE });
    assert!(matches!(allocator.resume(undo, Err(second)), Step::Failed(error) if error == first));
}

#[test]
fn linux_allocation_is_all_or_nothing() {
    let layout = Layout::from_size_align(64, 8).unwrap();
    let allocator = LinuxSecretAllocator::new();

    let mut kernel = Kernel::refusing(&[0]);
    assert!(allocate(&mut kernel, &allocator, layout).is_err());
    assert_eq!(kernel.calls, vec![Call::OpenSecret]);

    // The descriptor cannot be sized: it is closed and nothing is mapped.
    let mut kernel = Kernel::refusing(&[1]);
    assert!(allocate(&mut kernel, &allocator, layout).is_err());
    assert_eq!(
        kernel.calls,
        vec![Call::OpenSecret, Call::Resize { fd: 3, len: PAGE }, Call::Close { fd: 3 }]
    );
    assert!(kernel.holds_nothing());

    // The mapping is refused: the descriptor is closed.
    let mut kernel = Kernel::refusing(&[2]);
    assert!(allocate(&mut kernel, &allocator, layout).is_err());
    assert_eq!(kernel.calls.last(), Some(&Call::Close { fd: 3 }));
    assert_eq!(kernel.calls.len(), 4);
    assert!(kernel.holds_nothing());

    // Closing the descriptor is refused: the region is handed out all the same.
    let mut kernel = Kernel::refusing(&[3]);
    let region = allocate(&mut kernel, &allocator, layout).unwrap();
    assert_eq!(kernel.calls.last(), Some(&Call::Close { fd: 3 }));
    assert_eq!((region.base(), region.len()), (0x10000, PAGE));
}

#[test]
fn windows_allocation_is_all_or_nothing() {
    let layout = Layout::from_size_align(64, 8).unwrap();
    let allocator = WindowsSecretAllocator::new();

    let mut kernel = Kernel::refusing(&[0]);
    assert!(allocate(&mut kernel, &allocator, layout).is_err());
    assert_eq!(kernel.calls, vec![Call::Reserve { len: PAGE, source: Source::Committed }]);

    let mut kernel = Kernel::refusing(&[1]);
    assert!(allocate(&mut kernel, &allocator, layout).is_err());
    assert_eq!(
        kernel.calls,
        vec![
            Call::Reserve { len: PAGE, source: Source::Committed },
            Call::Pin { addr: 0x10000, len: PAGE },
            Call::Release { addr: 0x10000, len: PAGE },
        ]
    );
    assert!(kernel.holds_nothing());

    let mut kernel = Kernel::new();
    let region = allocate(&mut kernel, &allocator, layout).unwrap();
    let addr = region.base();
    assert_eq!(region.origin(), Backend::Windows);
    kernel.calls.clear();
    assert!(release(&mut kernel, &allocator, region).is_ok());
    assert_eq!(
        kernel.calls,
        vec![
            Call::Protect { addr, len: PAGE, protection: Protection::ReadWrite },
            Call::Zero { addr, len: PAGE },
            Call::Unpin { addr, len: PAGE },
            Call::Release { addr, len: PAGE },
        ]
    );

    // The kernel refuses to take the pages back: that is the release's error.
    let region = allocate(&mut kernel, &allocator, layout).unwrap();
    kernel.refuse = vec![kernel.calls.len() + 3];
    assert_eq!(release(&mut kernel, &allocator, region), Err(OsError { code: 12 }));
}

#[test]
fn release_zeroes_although_write_access_is_refused() {
    let mut kernel = Kernel::new();
    let allocator = UnixSecretAllocator::new();
    let layout = Layout::from_size_align(64, 8).unwrap();
    let region = allocate(&mut kernel, &allocator, layout).unwrap();
    let addr = region.base();
    kernel.write(&region, &[0xAA; 64]).unwrap();

    // The kernel refuses the first request of the release.
    kernel.calls.clear();
    kernel.refuse = vec![0];
    assert_eq!(release(&mut kernel, &allocator, region), Ok(()));
    assert_eq!(
        kernel.calls,
        vec![
            Call::Protect { addr, len: PAGE, protection: Protection::ReadWrite },
            Call::Zero { addr, len: PAGE },
            Call::Advise { addr, len: PAGE, advice: Advice::IncludeInDumps },
            Call::Unpin { addr, len: PAGE },
            Call::Release { addr, len: PAGE },
        ]
    );
    assert!(kernel.holds_nothing());
    assert_eq!(kernel.freed, vec![vec![0u8; PAGE]]);
}

#[test]
fn release_zeroes_whichever_requests_are_refused() {
    for refused in [vec![0], vec![2], vec![3], vec![0, 2, 3]] {
        let mut kernel = Kernel::new();
        let backend = Backend::Unix;
        let layout = Layout::from_size_align(100, 4).unwrap();
        let region = allocate(&mut kernel, &backend, layout).unwrap();
        kernel.write(&region, &[0xAA; 100]).unwrap();
        kernel.calls.clear();
        kernel.refuse = refused;
        assert_eq!(release(&mut kernel, &backend, region), Ok(()));
        assert_eq!(kernel.calls.len(), 5);
        assert!(kernel.holds_nothing());
        assert!(kernel.freed.iter().all(|page| page.iter().all(|byte| *byte == 0)));
    }

    // Only the last request, to give the pages back, can fail a release, and
    // by then they are zero.
    let mut kernel = Kernel::new();
    let backend = Backend::Windows;
    let layout = Layout::from_size_align(100, 4).unwrap();
    let region = allocate(&mut kernel, &backend, layout).unwrap();
    kernel.write(&region, &[0xAA; 100]).unwrap();
    let at = region.base();
    kernel.calls.clear();
    kernel.refuse = vec![3];
    assert_eq!(release(&mut kernel, &backend, region), Err(OsError { code: 12 }));
    assert!(kernel.mapped[&at].bytes.iter().all(|byte| *byte == 0));
}

#[test]
fn released_pages_hold_no_residue() {
    let mut kernel = Kernel::new();
    let secret = boxed(&mut kernel, [0xAAu8; 32]);
    let region_len = secret.as_region().len();
    let bytes = *secret;
    let base = secret.as_region().base();
    kernel.mapped.get_mut(&base).unwrap().bytes[..32].copy_from_slice(&bytes);
    assert!(kernel.mapped[&base].bytes.contains(&0xAA));

    assert!(drop_box(&mut kernel, secret).is_ok());
    assert!(kernel.holds_nothing());

    // The kernel hands the same pages out again, as they were left.
    let layout = Layout::from_size_align(32, 1).unwrap();
    let again = allocate(&mut kernel, &UnixSecretAllocator::new(), layout).unwrap();
    assert_eq!(again.len(), region_len);
    assert!(kernel.freed.is_empty());
    let fresh = kernel.read(&again, region_len);
    assert!(fresh.iter().all(|byte| *byte == 0));
}

#[test]
fn zero_wipes_only_the_span_that_the_call_names() {
    let mut bytes = vec![0xAAu8; 64];
    assert_eq!(zero(Call::Zero { addr: 0x1000, len: 64 }, &mut bytes), Some(Ok(0)));
    assert_eq!(bytes, vec![0u8; 64]);

    let mut bytes = vec![0xAAu8; 64];
    assert_eq!(zero(Call::Zero { addr: 0x1000, len: 63 }, &mut bytes), None);
    assert_eq!(zero(Call::Release { addr: 0x1000, len: 64 }, &mut bytes), None);
    assert_eq!(bytes, vec![0xAAu8; 64]);

    let mut nothing: Vec<u8> = Vec::new();
    assert_eq!(zero(Call::Zero { addr: 0x1000, len: 0 }, &mut nothing), Some(Ok(0)));
}

#[test]
fn new_box_holds_its_value() {
    let mut kernel = Kernel::new();
    let secret = boxed(&mut kernel, 42i32);
    assert_eq!(*secret, 42);
    assert_eq!(*secret.get(), 42);
    assert_eq!(secret.as_region().len(), PAGE);
    assert_eq!(secret.as_region().protection(), Protection::ReadWrite);
}

#[test]
fn locked_box_is_released_after_write_access_is_restored() {
    let mut kernel = Kernel::new();
    let secret = boxed(&mut kernel, 7u64);
    let locked = expect_ok(lock(&mut kernel, secret), "Failed to lock SecretBox");
    let base = locked.as_region().base();
    assert_eq!(locked.as_region().protection(), Protection::ReadOnly);
    assert!(!kernel.mapped[&base].writable);

    kernel.calls.clear();
    let (value, pending) = locked.release();
    assert_eq!(value, 7);
    assert_eq!(
        Backend::Linux.call(&pending),
        Call::Protect { addr: base, len: PAGE, protection: Protection::ReadWrite }
    );
    assert!(matches!(pending, Pending::Linux(_)));
    assert!(drive(&mut kernel, &Backend::Linux, pending).is_ok());
    assert_eq!(
        kernel.calls,
        vec![
            Call::Protect { addr: base, len: PAGE, protection: Protection::ReadWrite },
            Call::Zero { addr: base, len: PAGE },
            Call::Release { addr: base, len: PAGE },
        ]
    );
    assert!(kernel.holds_nothing());
}

#[test]
fn locked_box_is_zeroed_although_write_access_is_refused() {
    let mut kernel = Kernel::new();
    let secret = boxed(&mut kernel, 7u64);
    let locked = expect_ok(lock(&mut kernel, secret), "Failed to lock SecretBox");
    let base = locked.as_region().base();
    let backend = locked.as_region().origin();

    let (_, restoring) = locked.release();
    assert_eq!(
        backend.call(&restoring),
        Call::Protect { addr: base, len: PAGE, protection: Protection::ReadWrite }
    );
    let zeroing = match backend.resume(restoring, Err(OsError { code: 13 })) {
        Step::Continue(then) => then,
        _ => panic!("a refusal is ignored"),
    };
    assert_eq!(backend.call(&zeroing), Call::Zero { addr: base, len: PAGE });
    let unmapping = match backend.resume(zeroing, Ok(0)) {
        Step::Continue(then) => then,
        _ => panic!("the pages are still to be given back"),
    };
    assert_eq!(backend.call(&unmapping), Call::Release { addr: base, len: PAGE });
    assert!(matches!(backend.resume(unmapping, Ok(0)), Step::Released));
}

#[test]
fn refused_lock_returns_the_same_box() {
    let mut kernel = Kernel::new();
    let secret = boxed(&mut kernel, 42);
    let base = secret.as_region().base();

    kernel.refuse = vec![kernel.calls.len()];
    let mut secret = match lock(&mut kernel, secret) {
        Ok(_) => panic!("the kernel refused"),
        Err(same) => same,
    };
    assert_eq!(*secret, 42);
    assert_eq!(secret.as_region().base(), base);
    assert_eq!(secret.as_region().protection(), Protection::ReadWrite);

    // The box is still usable.
    *secret = 43;
    assert_eq!(*secret.get(), 43);
    let locked = expect_ok(lock(&mut kernel, secret), "Failed to lock SecretBox");

    kernel.refuse = vec![kernel.calls.len()];
    let locked = match unlock(&mut kernel, locked) {
        Ok(_) => panic!("the kernel refused"),
        Err(same) => same,
    };
    assert_eq!(*locked, 43);
    assert_eq!(locked.as_region().protection(), Protection::ReadOnly);
}

#[test]
fn lock_and_unlock_round_trip_structured_value() {
    let mut kernel = Kernel::new();
    let value = (String::from("correct horse"), vec![1u8, 2, 3], 9i64);
    let secret = boxed(&mut kernel, value.clone());
    let base = secret.as_region().base();
    let locked = expect_ok(lock(&mut kernel, secret), "Failed to lock SecretBox");
    let unlocked = expect_ok(unlock(&mut kernel, locked), "Failed to unlock SecretBox");
    assert_eq!(*unlocked, value);
    assert_eq!(unlocked.as_region().base(), base);
    assert_eq!(unlocked.as_region().protection(), Protection::ReadWrite);
}

#[test]
fn as_ref_and_as_mut_reach_the_value() {
    let mut kernel = Kernel::new();
    let mut secret = boxed(&mut kernel, String::from("hunter2"));
    assert_eq!(AsRef::<String>::as_ref(&secret), "hunter2");
    AsMut::<String>::as_mut(&mut secret).push('!');
    *secret.get_mut() += "?";
    assert_eq!(secret.get(), "hunter2!?");
    let locked = expect_ok(lock(&mut kernel, secret), "Failed to lock SecretBox");
    assert_eq!(AsRef::<String>::as_ref(&locked), "hunter2!?");
}

#[test]
fn failed_allocation_makes_no_box() {
    let mut kernel = Kernel::refusing(&[0]);
    let backend = Backend::Unix;
    let layout = Layout::new::<u32>().unwrap();
    let allocation = allocate(&mut kernel, &backend, layout);
    assert!(matches!(SecretBox::new(5u32, allocation), Err(error) if error == OsError { code: 12 }));
}

#[test]
fn selector_falls_back_and_boxes_work_alike() {
    assert_eq!(platform_secret_allocator(None, Platform::Linux, true), Backend::Linux);
    assert_eq!(platform_secret_allocator(None, Platform::Linux, false), Backend::Unix);
    assert_eq!(platform_secret_allocator(None, Platform::Unix, true), Backend::Unix);
    assert_eq!(platform_secret_allocator(None, Platform::Unix, false), Backend::Unix);
    assert_eq!(platform_secret_allocator(None, Platform::Windows, false), Backend::Windows);
    // Once chosen, never chosen again.
    assert_eq!(
        platform_secret_allocator(Some(Backend::Unix), Platform::Linux, true),
        Backend::Unix
    );

    for secret_memory in [true, false] {
        let mut kernel = Kernel::new();
        let backend = platform_secret_allocator(None, Platform::Linux, secret_memory);
        let layout = Layout::new::<i32>().unwrap();
        let secret = match SecretBox::new(42i32, allocate(&mut kernel, &backend, layout)) {
            Ok(secret) => secret,
            Err(_) => panic!("Unable to allocate secret memory"),
        };
        assert_eq!(secret.as_region().origin(), backend);
        let locked = expect_ok(lock(&mut kernel, secret), "Failed to lock SecretBox");
        assert_eq!(*locked, 42);
        let mut unlocked = expect_ok(unlock(&mut kernel, locked), "Failed to unlock SecretBox");
        *unlocked = 100;
        assert_eq!(*unlocked, 100);
        let (value, pending) = unlocked.release();
        assert_eq!(value, 100);
        assert!(drive(&mut kernel, &backend, pending).is_ok());
        assert!(kernel.holds_nothing());
    }
}
