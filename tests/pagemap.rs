use ff::pagemap::{
    entry_offset, mapping_len, page_count, page_size_of, page_window, resident_pages_of,
    vm_page_size, Frame, PfnError,
    KPageFlags, PageMapEntry, PageWindow,
};
use ff::KernelVersion;

#[test]
fn page_count_rounds_up() {
    assert_eq!(page_count(0, 4096), 0);
    assert_eq!(page_count(1, 4096), 1);
    assert_eq!(page_count(4096, 4096), 1);
    assert_eq!(page_count(4097, 4096), 2);
    assert_eq!(page_count(u64::MAX, 4096), u64::MAX / 4096 + 1);
    assert_eq!(page_count(u64::MAX, 1), u64::MAX);
}

#[test]
fn mapping_len_checks_overflow() {
    assert_eq!(mapping_len(3, 4096), Some(12288));
    assert_eq!(mapping_len(0, 4096), Some(0));
    assert_eq!(mapping_len(u64::MAX, 2), None);
}

#[test]
fn resident_pages_use_the_low_bit() {
    assert_eq!(resident_pages_of(&[]), Vec::<u64>::new());
    assert_eq!(resident_pages_of(&[0, 0, 0]), Vec::<u64>::new());
    assert_eq!(resident_pages_of(&[1, 0, 3, 2, 0xff]), vec![0, 2, 4]);
}

#[test]
fn written_prefix_is_contiguous_from_zero() {
    // a probe over a file whose first three pages were written and synced
    let pages = page_count(3 * 4096 - 100, 4096);
    let mut status = vec![0u8; pages as usize + 2];
    for b in status.iter_mut().take(pages as usize) {
        *b = 1;
    }
    assert_eq!(resident_pages_of(&status), vec![0, 1, 2]);
}

#[test]
fn frame_decoding() {
    let present = PageMapEntry::PRESENT;
    assert_eq!(PageMapEntry::from_bits_retain(0).frame(), Frame::NotPresent);
    assert_eq!(PageMapEntry::from_bits_retain(0x1234).frame(), Frame::NotPresent);
    assert_eq!(PageMapEntry::from_bits_retain(present).frame(), Frame::Hidden);
    let e = PageMapEntry::from_bits_retain(present | PageMapEntry::FILE_PAGE_OR_SHARED_ANON | 0x1234);
    assert_eq!(e.frame(), Frame::Present(0x1234));
    assert_eq!(e.pfn(), Ok(0x1234));
    assert!(e.contains(PageMapEntry::PRESENT | PageMapEntry::FILE_PAGE_OR_SHARED_ANON));
    assert!(!e.contains(PageMapEntry::SWAPPED));
    assert_eq!(PageMapEntry::from_bits_retain(present).pfn(), Err(PfnError::Hidden));
    assert_eq!(PageMapEntry::from_bits_retain(0x1234).pfn(), Err(PfnError::NotPresent));
    let soft = PageMapEntry::from_bits_retain(present | PageMapEntry::SOFT_DIRTY | 7);
    assert_eq!(soft.pfn(), Ok(7));
    assert_eq!(soft.bits(), present | PageMapEntry::SOFT_DIRTY | 7);
}

#[test]
fn kernel_flags() {
    let f = KPageFlags::from_bits_retain(KPageFlags::UPTODATE | KPageFlags::LRU | KPageFlags::DIRTY);
    assert!(f.contains(KPageFlags::DIRTY));
    assert!(!f.contains(KPageFlags::WRITEBACK));
    assert_eq!(f.bits(), 0x38);
}

#[test]
fn page_window_aligns_down() {
    assert_eq!(page_window(0, 4096, 4096), Some(PageWindow { offset: 0, delta: 0 }));
    assert_eq!(page_window(3, 1024, 4096), Some(PageWindow { offset: 0, delta: 3072 }));
    assert_eq!(page_window(5, 1024, 4096), Some(PageWindow { offset: 4096, delta: 1024 }));
    assert_eq!(page_window(2, 65536, 4096), Some(PageWindow { offset: 131072, delta: 0 }));
    assert_eq!(page_window(u64::MAX, 2, 4096), None);
}

#[test]
fn entry_offsets() {
    assert_eq!(entry_offset(0), Some(0));
    assert_eq!(entry_offset(5), Some(40));
    assert_eq!(entry_offset(u64::MAX / 8), Some(u64::MAX / 8 * 8));
    assert_eq!(entry_offset(u64::MAX / 8 + 1), None);
}

#[test]
fn page_size_reports() {
    assert_eq!(page_size_of(Some(4096)), Some(4096));
    assert_eq!(page_size_of(Some(1)), Some(1));
    assert_eq!(page_size_of(Some(0)), None);
    assert_eq!(page_size_of(Some(-1)), None);
    assert_eq!(page_size_of(None), None);
}

#[test]
fn vm_page_is_positive() {
    let p = vm_page_size().unwrap();
    assert!(p > 0);
}

#[test]
fn kernel_versions() {
    let v = KernelVersion::from_release("6.16.5-arch1-1").unwrap();
    assert_eq!(v, KernelVersion { major: 6, minor: 16, patch: 5 });
    assert!(v.at_least(5, 15));
    assert!(v.at_least(6, 16));
    assert!(!v.at_least(6, 17));
    assert!(!v.at_least(7, 0));
    assert_eq!(
        KernelVersion::from_release("5.15.0-91-generic"),
        Some(KernelVersion { major: 5, minor: 15, patch: 0 })
    );
    assert_eq!(KernelVersion::from_release("4.19-rc1-x"), None);
    assert_eq!(KernelVersion::from_release("6.1"), None);
    assert_eq!(KernelVersion::from_release("6.1."), None);
    assert_eq!(KernelVersion::from_release("6.x.1"), None);
    assert_eq!(KernelVersion::from_release("6.1.99999999999"), None);
    assert!(KernelVersion::current().is_some());
}
