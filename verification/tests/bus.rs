//! Bus registration, routing, and little-endian multi-byte transfers.

use rmips::devices::Device;
use rmips::error::RmipsError;
use rmips::memory::bus::Bus;
use rmips::memory::ram::Ram;
use rmips::memory::rom::Rom;

fn preset_device(data: Vec<u8>) -> Device {
    // A writable byte buffer with preset contents; the word of zero padding
    // the ROM adds lies beyond every registered range in these tests.
    Device::Rom(Rom::new(data))
}

#[test]
fn bus_insert() {
    let mut bus = Bus::new();
    assert!(bus.register(Device::Ram(Ram::new(8)), 0x100, 0x10).is_ok());
    assert!(bus.register(Device::Ram(Ram::new(8)), 0x105, 0x10).is_err());
    assert!(bus.register(Device::Ram(Ram::new(8)), 0x100, 0x10).is_err());
    assert!(bus.register(Device::Ram(Ram::new(8)), 0x0, 0x20).is_ok());
    assert!(bus.register(Device::Ram(Ram::new(8)), 0x0, 0x10).is_err());
}

#[test]
fn bus_read() {
    let mut bus = Bus::new();
    let device = preset_device(vec![0xde, 0xad, 0xbe, 0xef, 0xca, 0xfe, 0xba, 0xbe]);
    assert!(bus.register(device, 0x100, 0x8).is_ok());

    assert_eq!(bus.fetch_byte(0x100).unwrap(), 0xde);
    assert_eq!(bus.fetch_byte(0x101).unwrap(), 0xad);
    assert_eq!(bus.fetch_byte(0x102).unwrap(), 0xbe);
    assert_eq!(bus.fetch_byte(0x103).unwrap(), 0xef);

    assert_eq!(bus.fetch_byte(0x104).unwrap(), 0xca);
    assert_eq!(bus.fetch_byte(0x105).unwrap(), 0xfe);

    assert!(bus.fetch_byte(0x110).is_err());
    assert!(bus.fetch_byte(0xff).is_err());
}

#[test]
fn bus_write() {
    let mut bus = Bus::new();
    assert!(bus.register(Device::Ram(Ram::new(8)), 0x100, 0x8).is_ok());

    let data = [0xde, 0xad, 0xbe, 0xef, 0xca, 0xfe, 0xba, 0xbe];
    for (i, v) in data.iter().enumerate() {
        assert!(bus.store_byte(0x100 + i as u32, *v).is_ok());
    }

    for (i, v) in data.iter().enumerate() {
        assert_eq!(bus.fetch_byte(0x100 + i as u32).unwrap(), *v);
    }
}

#[test]
fn bus_fetch_word() {
    let mut bus = Bus::new();
    let device = preset_device(vec![0xef, 0xbe, 0xad, 0xde, 0xbe, 0xba, 0xfe, 0xca]);
    assert!(bus.register(device, 0x100, 0x8).is_ok());

    assert_eq!(bus.fetch_word(0x100).unwrap(), 0xdeadbeef);
    assert_eq!(bus.fetch_word(0x104).unwrap(), 0xcafebabe);
    assert!(bus.fetch_word(0x108).is_err());
}

#[test]
fn bus_fetch_halfword() {
    let mut bus = Bus::new();
    let device = preset_device(vec![0xef, 0xbe, 0xad, 0xde, 0xbe, 0xba, 0xfe, 0xca]);
    assert!(bus.register(device, 0x100, 0x8).is_ok());

    assert_eq!(bus.fetch_halfword(0x100).unwrap(), 0xbeef);
    assert_eq!(bus.fetch_halfword(0x102).unwrap(), 0xdead);
    assert_eq!(bus.fetch_halfword(0x104).unwrap(), 0xbabe);
    assert_eq!(bus.fetch_halfword(0x106).unwrap(), 0xcafe);
    assert!(bus.fetch_halfword(0x108).is_err());
}

#[test]
fn bus_fetch_byte() {
    let mut bus = Bus::new();
    let device = preset_device(vec![0xef, 0xbe, 0xad, 0xde, 0xbe, 0xba, 0xfe, 0xca]);
    assert!(bus.register(device, 0x100, 0x8).is_ok());

    assert_eq!(bus.fetch_byte(0x100).unwrap(), 0xef);
    assert_eq!(bus.fetch_byte(0x101).unwrap(), 0xbe);
    assert_eq!(bus.fetch_byte(0x102).unwrap(), 0xad);
    assert!(bus.fetch_byte(0x109).is_err());
}

#[test]
fn bus_store_word() {
    let mut bus = Bus::new();
    let device = preset_device(vec![0xef, 0xbe, 0xad, 0xde, 0xbe, 0xba, 0xfe, 0xca]);
    assert!(bus.register(device, 0x100, 0x8).is_ok());

    assert!(bus.store_word(0x100, 0x1abcdef0).is_ok());
    assert_eq!(bus.fetch_word(0x100).unwrap(), 0x1abcdef0);

    assert!(bus.store_word(0x108, 0x1abcdef0).is_err());
}

#[test]
fn bus_store_halfword() {
    let mut bus = Bus::new();
    let device = preset_device(vec![0xef, 0xbe, 0xad, 0xde, 0xbe, 0xba, 0xfe, 0xca]);
    assert!(bus.register(device, 0x100, 0x8).is_ok());

    assert!(bus.store_halfword(0x104, 0xabcd).is_ok());
    assert_eq!(bus.fetch_halfword(0x104).unwrap(), 0xabcd);

    assert!(bus.store_halfword(0x108, 0xabcd).is_err());
}

#[test]
fn bus_store_byte() {
    let mut bus = Bus::new();
    let device = preset_device(vec![0xef, 0xbe, 0xad, 0xde, 0xbe, 0xba, 0xfe, 0xca]);
    assert!(bus.register(device, 0x100, 0x8).is_ok());

    assert!(bus.store_byte(0x102, 0x13).is_ok());
    assert!(bus.store_byte(0x104, 0x37).is_ok());
    assert_eq!(bus.fetch_byte(0x102).unwrap(), 0x13);
    assert_eq!(bus.fetch_byte(0x104).unwrap(), 0x37);

    assert!(bus.store_byte(0x108, 0xff).is_err());
}

#[test]
fn bus_unmapped_address_error() {
    let bus = Bus::new();
    assert!(matches!(
        bus.fetch_byte(0x42),
        Err(RmipsError::UnmappedAddress(0x42))
    ));
}

#[test]
fn bus_short_device_read_error() {
    // A range larger than the device's buffer: reads past the buffer fail
    // with the device's own error, not an unmapped-address error.
    let mut bus = Bus::new();
    let device = preset_device(vec![0xaa, 0xbb]);
    // The padded buffer holds six bytes; the range covers sixteen.
    assert!(bus.register(device, 0x200, 0x10).is_ok());
    assert_eq!(bus.fetch_byte(0x200).unwrap(), 0xaa);
    assert!(matches!(
        bus.fetch_byte(0x208),
        Err(RmipsError::MemoryRead(8))
    ));
    assert!(matches!(
        bus.store_byte(0x208, 1),
        Err(RmipsError::MemoryWrite(8))
    ));
}

#[test]
fn bus_word_round_trip_in_ram() {
    // Storing a word and fetching it back at the same RAM address yields
    // the word; halfword and byte analogues hold too.
    let mut bus = Bus::new();
    assert!(bus.register(Device::Ram(Ram::new(0x40)), 0x0, 0x40).is_ok());

    assert!(bus.store_word(0x10, 0x01020304).is_ok());
    assert_eq!(bus.fetch_word(0x10).unwrap(), 0x01020304);

    assert!(bus.store_halfword(0x20, 0xbeef).is_ok());
    assert_eq!(bus.fetch_halfword(0x20).unwrap(), 0xbeef);

    assert!(bus.store_byte(0x30, 0x7f).is_ok());
    assert_eq!(bus.fetch_byte(0x30).unwrap(), 0x7f);
}
