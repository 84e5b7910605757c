//! Address-range membership and overlap.

use rmips::memory::range::Range;

#[test]
fn range_contains() {
    let range = Range::new(0x1000, 0x500);
    assert!(range.contains(0x1000));
    assert!(range.contains(0x1337));
    assert!(!range.contains(0xfff));
    assert!(!range.contains(0x1500));
}

#[test]
fn range_overlaps() {
    let range = Range::new(0x1000, 0x500);
    assert!(range.overlaps(0x1000, 0x500));
    assert!(range.overlaps(0xf00, 0x500));
    assert!(range.overlaps(0x1000, 0x20));
    assert!(range.overlaps(0xfff, 0x2));
    assert!(range.overlaps(0x14ff, 0x100));
    assert!(!range.overlaps(0x1500, 0x100));
    assert!(!range.overlaps(0xf00, 0x100));
}

#[test]
fn range_base_size_last() {
    let range = Range::new(0x1000, 0x500);
    assert_eq!(range.base(), 0x1000);
    assert_eq!(range.size(), 0x500);
    assert_eq!(range.last(), 0x14ff);
}
