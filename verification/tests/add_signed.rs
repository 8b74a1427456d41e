use rust_gb::add_signed::AddSigned;

#[test]
fn add_signed_u16_adds_positive_offsets() {
    assert_eq!(0x0100u16.add_signed(0i8), 0x0100);
    assert_eq!(0x0100u16.add_signed(1i8), 0x0101);
    assert_eq!(0x0100u16.add_signed(127i8), 0x017F);
}

#[test]
fn add_signed_u16_subtracts_negative_offsets() {
    assert_eq!(0x0100u16.add_signed(-1i8), 0x00FF);
    assert_eq!(0x0100u16.add_signed(-128i8), 0x0080);
    assert_eq!(128u16.add_signed(-128i8), 0);
}

#[test]
fn add_signed_u16_wraps_at_both_ends() {
    assert_eq!(0xFFFFu16.add_signed(1i8), 0x0000);
    assert_eq!(0xFFF0u16.add_signed(127i8), 0x006F);
    assert_eq!(0x0000u16.add_signed(-1i8), 0xFFFF);
    assert_eq!(0x0005u16.add_signed(-128i8), 0xFF85);
}

#[test]
fn add_signed_usize_adds_and_subtracts() {
    assert_eq!(1000usize.add_signed(24i32), 1024);
    assert_eq!(1000usize.add_signed(-1000i32), 0);
    assert_eq!(3_000_000_000usize.add_signed(i32::MIN), 852_516_352);
    assert_eq!(5usize.add_signed(i32::MAX), 2_147_483_652);
}

#[test]
fn add_signed_usize_wraps_at_both_ends() {
    assert_eq!(0usize.add_signed(-1i32), usize::MAX);
    assert_eq!(usize::MAX.add_signed(1i32), 0);
    assert_eq!(usize::MAX.add_signed(i32::MAX), 2_147_483_646);
    assert_eq!(0usize.add_signed(i32::MIN), usize::MAX - 2_147_483_647);
}
