use rust_gb::error::{AccessKind, EmulationError};
use rust_gb::interconnect::{BusWrite, Interconnect, Region, VideoRamArea, RAM_SIZE, VIDEO_RAM_SIZE};

fn unimplemented(address: u16, access_kind: AccessKind) -> EmulationError {
    EmulationError::UnimplementedMemoryRegion { address, access_kind }
}

#[test]
fn new_bus_holds_the_boot_image_and_zeroes() {
    let mut image = vec![0x31, 0xFE, 0xFF, 0xAF];
    let bus = Interconnect::new(&mut image);
    assert_eq!(bus.read_u8(0x0000), Ok(0x31));
    assert_eq!(bus.read_u8(0x0001), Ok(0xFE));
    assert_eq!(bus.read_u8(0x0002), Ok(0xFF));
    assert_eq!(bus.read_u8(0x0003), Ok(0xAF));
    assert_eq!(bus.read_u8(0x0004), Ok(0x00));
    assert_eq!(bus.read_u8(0x1FFF), Ok(0x00));
    assert_eq!(bus.read_u8(0x8000), Ok(0x00));
    assert_eq!(bus.read_u8(0x9FFF), Ok(0x00));
    assert_eq!(image, vec![0x31, 0xFE, 0xFF, 0xAF]);
}

#[test]
fn new_bus_with_an_empty_image_is_all_zero() {
    let mut image: Vec<u8> = Vec::new();
    let bus = Interconnect::new(&mut image);
    for address in 0..RAM_SIZE {
        assert_eq!(bus.read_u8(address as u16), Ok(0));
    }
}

#[test]
fn new_bus_takes_a_full_image() {
    let mut image: Vec<u8> = (0..RAM_SIZE).map(|i| (i % 251) as u8).collect();
    let bus = Interconnect::new(&mut image);
    for address in 0..RAM_SIZE {
        assert_eq!(bus.read_u8(address as u16), Ok((address % 251) as u8));
    }
}

#[test]
fn new_bus_truncates_an_image_longer_than_ram() {
    let mut image: Vec<u8> = (0..RAM_SIZE + 100).map(|i| (i % 7) as u8 + 1).collect();
    let bus = Interconnect::new(&mut image);
    assert_eq!(bus.read_u8(0x0000), Ok(1));
    assert_eq!(bus.read_u8(0x1FFF), Ok((0x1FFF % 7) as u8 + 1));
    assert_eq!(bus.read_u8(0x2000), Err(unimplemented(0x2000, AccessKind::Read)));
    assert_eq!(bus.read_u8(0x8000), Ok(0));
    assert_eq!(image.len(), RAM_SIZE + 100);
}

#[test]
fn read_u8_outside_the_arrays_is_refused() {
    let mut image = vec![1, 2, 3];
    let bus = Interconnect::new(&mut image);
    for address in [0x2000u16, 0x3FFF, 0x4000, 0x7FFF, 0xA000, 0xC000, 0xD000, 0xE000, 0xFE00,
        0xFEA0, 0xFF00, 0xFF7F, 0xFF80, 0xFFFE, 0xFFFF]
    {
        assert_eq!(bus.read_u8(address), Err(unimplemented(address, AccessKind::Read)));
    }
}

#[test]
fn read_u16_is_little_endian() {
    let mut image = vec![0x34, 0x12, 0xCD, 0xAB];
    let bus = Interconnect::new(&mut image);
    assert_eq!(bus.read_u16(0x0000), Ok(0x1234));
    assert_eq!(bus.read_u16(0x0001), Ok(0xCD12));
    assert_eq!(bus.read_u16(0x0002), Ok(0xABCD));
    assert_eq!(bus.read_u16(0x0003), Ok(0x00AB));
}

#[test]
fn read_u16_after_two_writes_joins_the_bytes() {
    let mut image = vec![0u8; 4];
    let mut bus = Interconnect::new(&mut image);
    for address in [0x8000u16, 0x8123, 0x97FF, 0x9BFF, 0x9FFE] {
        assert!(bus.write_u8(address, 0x78).is_ok());
        assert!(bus.write_u8(address + 1, 0x56).is_ok());
        assert_eq!(bus.read_u16(address), Ok(0x5678));
        assert_eq!(bus.read_u8(address), Ok(0x78));
        assert_eq!(bus.read_u8(address + 1), Ok(0x56));
    }
}

#[test]
fn read_u16_reports_the_upper_byte_first() {
    let mut image = vec![0x11, 0x22];
    let bus = Interconnect::new(&mut image);
    assert_eq!(bus.read_u16(0x1FFF), Err(unimplemented(0x2000, AccessKind::Read)));
    assert_eq!(bus.read_u16(0x9FFF), Err(unimplemented(0xA000, AccessKind::Read)));
    assert_eq!(bus.read_u16(0x7FFF), Err(unimplemented(0x7FFF, AccessKind::Read)));
    assert_eq!(bus.read_u16(0x4000), Err(unimplemented(0x4001, AccessKind::Read)));
}

#[test]
fn read_u16_at_the_last_address_wraps_to_zero() {
    let mut image = vec![0x11, 0x22];
    let bus = Interconnect::new(&mut image);
    // The upper byte comes from address 0, which can be read; the lower
    // byte, at 0xFFFF, cannot.
    assert_eq!(bus.read_u16(0xFFFF), Err(unimplemented(0xFFFF, AccessKind::Read)));
}

#[test]
fn video_ram_write_is_stored_and_read_back() {
    let mut image = vec![0u8; 1];
    let mut bus = Interconnect::new(&mut image);
    assert_eq!(bus.write_u8(0x8000 + 0x1900, 0x5A), Ok(BusWrite::VideoRam(VideoRamArea::BgMapData1)));
    assert_eq!(bus.read_u8(0x8000 + 0x1900), Ok(0x5A));
    assert_eq!(bus.read_u8(0x8000 + 0x18FF), Ok(0x00));
    assert_eq!(bus.read_u8(0x8000 + 0x1901), Ok(0x00));
    assert_eq!(bus.read_u8(0x1900), Ok(0x00));
}

#[test]
fn video_ram_write_is_classified_by_offset() {
    let mut image = vec![0u8; 1];
    let mut bus = Interconnect::new(&mut image);
    let character = Ok(BusWrite::VideoRam(VideoRamArea::CharacterRam));
    let map1 = Ok(BusWrite::VideoRam(VideoRamArea::BgMapData1));
    let map2 = Ok(BusWrite::VideoRam(VideoRamArea::BgMapData2));
    assert_eq!(bus.write_u8(0x8000, 1), character);
    assert_eq!(bus.write_u8(0x8000 + 0x17FF, 2), character);
    assert_eq!(bus.write_u8(0x8000 + 0x1800, 3), map1);
    assert_eq!(bus.write_u8(0x8000 + 0x1BFF, 4), map1);
    assert_eq!(bus.write_u8(0x8000 + 0x1C00, 5), map2);
    assert_eq!(bus.write_u8(0x8000 + 0x1C50, 6), map2);
    assert_eq!(bus.write_u8(0x8000 + 0x1FFF, 7), map2);
    assert_eq!(bus.read_u8(0x8000), Ok(1));
    assert_eq!(bus.read_u8(0x8000 + 0x17FF), Ok(2));
    assert_eq!(bus.read_u8(0x8000 + 0x1800), Ok(3));
    assert_eq!(bus.read_u8(0x8000 + 0x1BFF), Ok(4));
    assert_eq!(bus.read_u8(0x8000 + 0x1C00), Ok(5));
    assert_eq!(bus.read_u8(0x8000 + 0x1C50), Ok(6));
    assert_eq!(bus.read_u8(0x8000 + 0x1FFF), Ok(7));
}

#[test]
fn video_ram_write_replaces_the_earlier_value() {
    let mut image = vec![0u8; 1];
    let mut bus = Interconnect::new(&mut image);
    assert!(bus.write_u8(0x9000, 0x11).is_ok());
    assert!(bus.write_u8(0x9000, 0x22).is_ok());
    assert_eq!(bus.read_u8(0x9000), Ok(0x22));
}

#[test]
fn hardware_io_write_is_accepted_and_not_stored() {
    let mut image = vec![9u8; 16];
    let mut bus = Interconnect::new(&mut image);
    assert_eq!(bus.write_u8(0xFF00, 0x77), Ok(BusWrite::HardwareIoRegister));
    assert_eq!(bus.write_u8(0xFF7F, 0x78), Ok(BusWrite::HardwareIoRegister));
    assert_eq!(bus.read_u8(0xFF00), Err(unimplemented(0xFF00, AccessKind::Read)));
    for address in 0..16u16 {
        assert_eq!(bus.read_u8(address), Ok(9));
    }
    assert_eq!(bus.read_u8(0x8000), Ok(0));
}

#[test]
fn write_outside_video_ram_and_io_is_refused() {
    let mut image = vec![0xEEu8; 8];
    let mut bus = Interconnect::new(&mut image);
    for address in [0x0000u16, 0x00FF, 0x0100, 0x014F, 0x0150, 0x1000, 0x3FFF, 0x4000, 0x7FFF,
        0xA000, 0xBFFF, 0xC000, 0xCFFF, 0xD000, 0xDFFF, 0xE000, 0xFDFF, 0xFE00, 0xFE9F, 0xFEA0,
        0xFEFF, 0xFF80, 0xFFFE, 0xFFFF]
    {
        assert_eq!(bus.write_u8(address, 0x42), Err(unimplemented(address, AccessKind::Write)));
    }
    // A refused write leaves general RAM as it was.
    assert_eq!(bus.read_u8(0x0000), Ok(0xEE));
    assert_eq!(bus.read_u8(0x1000), Ok(0x00));
}

#[test]
fn region_of_finds_every_boundary() {
    let table = [
        (0x0000u16, 0x00FFu16, Region::RestartAndInterruptVectors),
        (0x0100, 0x014F, Region::CartridgeHeader),
        (0x0150, 0x3FFF, Region::CartridgeRomBank0),
        (0x4000, 0x7FFF, Region::CartridgeRomSwitchableBank),
        (0x8000, 0x9FFF, Region::VideoRam),
        (0xA000, 0xBFFF, Region::CartridgeRam),
        (0xC000, 0xCFFF, Region::InternalRamBank0),
        (0xD000, 0xDFFF, Region::InternalRamSwitchableBank),
        (0xE000, 0xFDFF, Region::EchoRam),
        (0xFE00, 0xFE9F, Region::ObjectAttributeMemory),
        (0xFEA0, 0xFEFF, Region::Unusable),
        (0xFF00, 0xFF7F, Region::HardwareIoRegisters),
        (0xFF80, 0xFFFE, Region::ZeroPage),
        (0xFFFF, 0xFFFF, Region::InterruptEnableRegister),
    ];
    let mut expected_first: u32 = 0;
    for (first, last, region) in table {
        // The regions follow one another without a gap.
        assert_eq!(first as u32, expected_first);
        assert_eq!(Region::of(first), region);
        assert_eq!(Region::of(last), region);
        assert_eq!(Region::of(first + (last - first) / 2), region);
        expected_first = last as u32 + 1;
    }
    assert_eq!(expected_first, 0x1_0000);
}

#[test]
fn array_sizes_are_eight_kibibytes() {
    assert_eq!(RAM_SIZE, 8192);
    assert_eq!(VIDEO_RAM_SIZE, 8192);
}
