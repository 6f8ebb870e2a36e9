use std::cell::RefCell;

use nix::errno::Errno;
use vmtouch::mapped::{eviction_result, page_size_from_sysconf, system_page_size};
use vmtouch::pages::{count_resident, is_page_aligned, page_count};
use vmtouch::{Error, MappedFile};

const PAGE: usize = 4096;

fn open_at(byte_length: usize) -> MappedFile {
    match MappedFile::new(-1, byte_length, PAGE, PAGE * 16) {
        Ok(m) => m,
        Err(e) => panic!("mapping refused: {:?}", e),
    }
}

#[test]
fn one_byte_file_takes_one_page() {
    assert_eq!(page_count(1, PAGE), 1);
}

#[test]
fn exact_multiple_takes_no_extra_page() {
    assert_eq!(page_count(PAGE * 3, PAGE), 3);
}

#[test]
fn empty_file_has_no_pages() {
    assert_eq!(page_count(0, PAGE), 0);
}

#[test]
fn one_byte_past_a_page_takes_two() {
    assert_eq!(page_count(PAGE + 1, PAGE), 2);
    assert_eq!(page_count(PAGE - 1, PAGE), 1);
    assert_eq!(page_count(PAGE, PAGE), 1);
}

#[test]
fn largest_length_does_not_overflow() {
    assert_eq!(page_count(usize::MAX, PAGE), usize::MAX / PAGE + 1);
    assert_eq!(page_count(usize::MAX, 1), usize::MAX);
}

#[test]
fn alignment_is_checked_against_page_size() {
    assert!(is_page_aligned(0, PAGE));
    assert!(is_page_aligned(PAGE * 7, PAGE));
    assert!(!is_page_aligned(PAGE * 7 + 1, PAGE));
}

#[test]
fn only_low_bit_counts_as_resident() {
    assert_eq!(count_resident(&[1, 0, 3, 2, 255, 254]), 3);
    assert_eq!(count_resident(&[]), 0);
}

#[test]
fn misaligned_mapping_is_refused() {
    match MappedFile::new(-1, 10, PAGE, PAGE + 8) {
        Err(Error::NotPageAligned) => {}
        other => panic!("expected NotPageAligned, got {:?}", other.err()),
    }
}

#[test]
fn null_mapping_is_refused() {
    match MappedFile::new(-1, 10, PAGE, 0) {
        Err(Error::NotPageAligned) => {}
        other => panic!("expected NotPageAligned, got {:?}", other.err()),
    }
}

#[test]
fn page_offsets_step_by_page_size() {
    let m = open_at(PAGE * 2 + 5);
    assert_eq!(m.page_offset(0), 0);
    assert_eq!(m.page_offset(1), PAGE);
    assert_eq!(m.page_offset(2), PAGE * 2);
}

#[test]
fn eviction_covers_the_whole_file() {
    assert_eq!(open_at(PAGE * 3 + 1).eviction_range(), (0, (PAGE * 3 + 1) as i64));
    assert_eq!(open_at(0).eviction_range(), (0, 0));
    let huge_page: usize = 1 << 44;
    let m = MappedFile::new(-1, usize::MAX, huge_page, huge_page).expect("mapping");
    assert_eq!(m.page_count(), 1 << 20);
    assert_eq!(m.eviction_range(), (0, 0));
}

#[test]
fn unallocatable_status_buffer_is_reported() {
    match MappedFile::new(-1, usize::MAX, PAGE, PAGE) {
        Err(Error::AllocFailed) => {}
        other => panic!("expected AllocFailed, got {:?}", other.err()),
    }
}

#[test]
fn fresh_mapping_reports_no_resident_page() {
    let m = open_at(PAGE * 3);
    assert_eq!(m.page_count(), 3);
    assert_eq!(m.byte_length(), PAGE * 3);
    assert_eq!(m.page_size(), PAGE);
    let stat = m.resident_pages();
    assert_eq!(stat.total_pages(), 3);
    assert_eq!(stat.resident_pages(), 0);
    assert_eq!(stat.page_size(), PAGE);
}

#[test]
fn touch_then_evict_one_byte_file() {
    let mut m = open_at(1);
    assert_eq!(m.resident_pages().total_pages(), 1);
    m.touch(|_offset| {});
    assert_eq!(m.resident_pages().resident_pages(), 1);
    // what a query reports after the kernel dropped the page
    m.record_snapshot(&[0]);
    assert_eq!(m.resident_pages().resident_pages(), 0);
}

#[test]
fn touch_reads_first_byte_of_every_page() {
    let mut m = open_at(PAGE * 2 + 5);
    let seen = RefCell::new(Vec::new());
    m.touch(|offset| seen.borrow_mut().push(offset));
    assert_eq!(seen.into_inner(), vec![0, PAGE, PAGE * 2]);
    let stat = m.resident_pages();
    assert_eq!(stat.resident_pages(), stat.total_pages());
}

#[test]
fn snapshot_is_summarised() {
    let mut m = open_at(PAGE * 3);
    m.record_snapshot(&[1, 0, 1]);
    let stat = m.resident_pages();
    assert_eq!(stat.resident_pages(), 2);
    assert_eq!(stat.total_pages(), 3);
    assert_eq!(stat.resident_bytes(), 8192);
    assert_eq!(stat.total_bytes(), 12288);
    assert_eq!(stat.percentage(), 66);
}

#[test]
fn fully_resident_is_one_hundred_percent() {
    let mut m = open_at(PAGE * 4);
    m.touch(|_offset| {});
    let stat = m.resident_pages();
    assert_eq!(stat.percentage(), 100);
    assert_eq!(stat.resident_bytes(), stat.total_bytes());
}

#[test]
fn empty_mapping_reports_zero_percent() {
    let m = open_at(0);
    let stat = m.resident_pages();
    assert_eq!(stat.total_pages(), 0);
    assert_eq!(stat.percentage(), 0);
    assert_eq!(stat.total_bytes(), 0);
}

#[test]
fn release_happens_once() {
    let mut m = open_at(PAGE * 2);
    assert!(!m.is_released());
    assert!(m.release());
    assert!(m.is_released());
    assert!(!m.release());
    assert!(m.is_released());
    assert_eq!(m.page_count(), 2);
    let stat = m.resident_pages();
    assert_eq!(stat.resident_pages(), 0);
    assert_eq!(stat.total_pages(), 2);
}

#[test]
fn touch_after_release_reads_nothing() {
    let mut m = open_at(PAGE * 2);
    m.release();
    let seen = RefCell::new(Vec::new());
    m.touch(|offset| seen.borrow_mut().push(offset));
    assert!(seen.into_inner().is_empty());
}

#[test]
fn evict_on_closed_descriptor_reports_errno() {
    let mut m = open_at(PAGE);
    match m.evict() {
        Err(Error::Nix(e)) => assert_eq!(e, Errno::EBADF),
        other => panic!("expected an errno, got {:?}", other),
    }
}

#[test]
fn eviction_outcome_is_mapped() {
    assert!(eviction_result(Ok(())).is_ok());
    match eviction_result(Err(Errno::EINVAL)) {
        Err(Error::Nix(e)) => assert_eq!(e, Errno::EINVAL),
        other => panic!("expected an errno, got {:?}", other),
    }
}

#[test]
fn sysconf_outcome_is_validated() {
    assert_eq!(page_size_from_sysconf(Ok(Some(4096))), Some(4096));
    assert_eq!(page_size_from_sysconf(Ok(Some(0))), None);
    assert_eq!(page_size_from_sysconf(Ok(Some(-1))), None);
    assert_eq!(page_size_from_sysconf(Ok(None)), None);
    assert_eq!(page_size_from_sysconf(Err(Errno::EINVAL)), None);
}

#[test]
fn machine_page_size_is_a_power_of_two() {
    let size = system_page_size().expect("page size");
    assert!(size > 0);
    assert!(size.is_power_of_two());
}
