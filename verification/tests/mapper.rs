//! The mapper: whole devices placed at physical addresses.

use rmips::devices::Device;
use rmips::memory::mapper::Mapper;
use rmips::memory::rom::Rom;

fn setup() -> Mapper {
    let mut mem = Mapper::new();
    let paddress = 0x1fc00000;
    let device = Device::Rom(Rom::new(vec![
        0xef, 0xbe, 0xad, 0xde, 0xbe, 0xba, 0xfe, 0xca, 0x78, 0x56, 0x34, 0x12,
    ]));
    mem.map_at_physical_address(device, paddress)
        .expect("Failed to map memory");
    mem
}

#[test]
fn test_fetch_word() {
    let mem = setup();
    assert_eq!(mem.fetch_word(0x1fc00000).unwrap(), 0xdeadbeef);
    assert_eq!(mem.fetch_word(0x1fc00004).unwrap(), 0xcafebabe);
    assert_eq!(mem.fetch_word(0x1fc00008).unwrap(), 0x12345678);
}

#[test]
fn test_fetch_halfword() {
    let mem = setup();
    assert_eq!(mem.fetch_halfword(0x1fc00000).unwrap(), 0xbeef);
    assert_eq!(mem.fetch_halfword(0x1fc00002).unwrap(), 0xdead);
    assert_eq!(mem.fetch_halfword(0x1fc00004).unwrap(), 0xbabe);
    assert_eq!(mem.fetch_halfword(0x1fc00006).unwrap(), 0xcafe);
}

#[test]
fn test_fetch_byte() {
    let mem = setup();
    assert_eq!(mem.fetch_byte(0x1fc00000).unwrap(), 0xef);
    assert_eq!(mem.fetch_byte(0x1fc00001).unwrap(), 0xbe);
    assert_eq!(mem.fetch_byte(0x1fc00002).unwrap(), 0xad);
    assert_eq!(mem.fetch_byte(0x1fc00003).unwrap(), 0xde);
}

#[test]
fn test_store_word() {
    let mut mem = setup();
    mem.store_word(0x1fc00008, 0x1abcdef0).unwrap();
    assert_eq!(mem.fetch_word(0x1fc00008).unwrap(), 0x1abcdef0);
}

#[test]
fn test_store_halfword() {
    let mut mem = setup();
    mem.store_halfword(0x1fc00008, 0xabcd).unwrap();
    assert_eq!(mem.fetch_halfword(0x1fc00008).unwrap(), 0xabcd);
}

#[test]
fn test_store_byte() {
    let mut mem = setup();
    mem.store_byte(0x1fc00008, 0x42).unwrap();
    assert_eq!(mem.fetch_byte(0x1fc00008).unwrap(), 0x42);
}

#[test]
fn test_map_overlap_rejected() {
    let mut mem = setup();
    let device = Device::Rom(Rom::new(vec![0, 0, 0, 0]));
    assert!(mem.map_at_physical_address(device, 0x1fc00004).is_err());
}
