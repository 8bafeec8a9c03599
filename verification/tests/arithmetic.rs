//! Page arithmetic, the page-size cache, the probe and the address handle.

use secret_memory::allocator::ffi::{memfd_secret_available, page_size, Call, OsError};
use secret_memory::allocator::util::{aligned_size, AlignedSize, Layout};
use secret_memory::util::unique::Unique;

#[test]
fn aligned_size_rounds_to_pages() {
    assert_eq!(aligned_size(0, 8, 4096), 0);
    assert_eq!(aligned_size(1, 8, 4096), 4096);
    assert_eq!(aligned_size(1024, 8, 4096), 4096);
    assert_eq!(aligned_size(4096, 8, 4096), 4096);
    assert_eq!(aligned_size(4097, 8, 4096), 8192);
    assert_eq!(aligned_size(12288, 1, 4096), 12288);
}

#[test]
fn aligned_size_rounds_to_a_larger_alignment() {
    assert_eq!(aligned_size(1, 8192, 4096), 8192);
    assert_eq!(aligned_size(8193, 8192, 4096), 16384);
    assert_eq!(aligned_size(100, 65536, 16384), 65536);
}

#[test]
fn aligned_size_is_a_multiple_and_not_less() {
    for page in [4096usize, 16384, 65536] {
        for align in [1usize, 8, 4096, 32768] {
            for size in [0usize, 1, 4095, 4096, 4097, 100_000, 1 << 30] {
                let unit = align.max(page);
                let len = aligned_size(size, align, page);
                assert_eq!(len % unit, 0);
                assert!(len >= size);
                assert!(len - size < unit);
            }
        }
    }
}

#[test]
fn aligned_size_at_the_largest_request() {
    let largest = isize::MAX as usize;
    assert_eq!(aligned_size(largest, 1, 4096), largest + 1);
    assert_eq!(aligned_size(largest, 1, 1), largest);
}

#[test]
fn layout_checks_its_parts() {
    assert!(Layout::from_size_align(16, 0).is_none());
    assert!(Layout::from_size_align(isize::MAX as usize + 1, 8).is_none());
    let layout = Layout::from_size_align(isize::MAX as usize, 8).unwrap();
    assert_eq!(layout.size(), isize::MAX as usize);
    assert_eq!(layout.align(), 8);

    let layout = Layout::new::<u64>().unwrap();
    assert_eq!(layout.size(), 8);
    assert_eq!(layout.align(), std::mem::align_of::<u64>());
    assert_eq!(layout.page_aligned_size(4096), 4096);
    assert_eq!(Layout::new::<[u8; 5000]>().unwrap().page_aligned_size(4096), 8192);
    assert_eq!(Layout::new::<()>().unwrap().page_aligned_size(4096), 0);
}

#[test]
fn page_size_is_read_once() {
    assert_eq!(page_size(None, 4096), Some(4096));
    assert_eq!(page_size(Some(4096), 16384), Some(4096));
    assert_eq!(page_size(Some(4096), -1), Some(4096));
    assert_eq!(page_size(None, -1), None);
    assert_eq!(page_size(None, 0), None);
}

#[test]
fn probe_closes_what_it_opened() {
    assert_eq!(memfd_secret_available(Ok(5)), (true, Some(Call::Close { fd: 5 })));
    assert_eq!(memfd_secret_available(Err(OsError { code: 38 })), (false, None));
}

#[test]
fn unique_is_never_null() {
    assert!(Unique::<u32>::new(0).is_none());
    let unique = Unique::<u32>::new(0x1000).unwrap();
    assert_eq!(unique.as_ptr(), 0x1000);
    let copy = unique;
    assert_eq!(unique.cast::<u8>().as_ptr(), 0x1000);
    assert_eq!(copy.clone().as_ptr(), 0x1000);
    assert_eq!(Unique::<u64>::dangling().as_ptr(), std::mem::align_of::<u64>());
    assert_eq!(Unique::<u8>::dangling().as_ptr(), 1);
    assert_eq!(Unique::<u16>::new_unchecked(2).as_ptr(), 2);
}
