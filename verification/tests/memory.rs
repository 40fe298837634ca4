use eafis_vm::memory::Memory;

#[test]
fn mask_wraparound_examples() {
    // Adding the full address-space size (2^24) never changes the masked address.
    let samples: Vec<u32> = vec![0, 1, 5, 0x00FF_FFFF, 0x0100_0000, 0x12345678, 0xFEFF_FFFF, 0xFFFF_FFFF];
    for &addr in &samples {
        assert_eq!(Memory::get_ptr(addr), Memory::get_ptr(addr.wrapping_add(0x0100_0000)));
    }
    assert_eq!(Memory::get_ptr(0x0100_0000), 0);
    assert_eq!(Memory::get_ptr(0xABCD_EF01), 0x00CD_EF01);
}

#[test]
fn word_round_trip_various_addresses() {
    let mut m = Memory::new();
    let cases: Vec<(u32, u32)> = vec![
        (0, 0xDEAD_BEEF),
        (0x123456, 1),
        (0x00FF_FFFF, 0xA5A5_A5A5),
        (0xFFFF_FFFF, 0x0102_0304),
        (4, 0),
    ];
    for &(addr, val) in &cases {
        m.write_u32(addr, val);
        assert_eq!(m.read_u32(addr), val);
    }
}

#[test]
fn words_are_little_endian() {
    let mut m = Memory::new();
    m.write_u32(0x40, 0xAABB_CCDD);
    assert_eq!(m.read_byte(0x40), 0xDD);
    assert_eq!(m.read_byte(0x41), 0xCC);
    assert_eq!(m.read_byte(0x42), 0xBB);
    assert_eq!(m.read_byte(0x43), 0xAA);
}

#[test]
fn access_near_wrap_boundary_uses_slack_not_address_zero() {
    let mut m = Memory::new();
    // A 4-byte write starting 2 bytes before the wrap boundary runs into the
    // slack region; it must not touch addresses 0..=1.
    m.write_u32(0x00FF_FFFE, 0xAABB_CCDD);
    assert_eq!(m.read_byte(0x00FF_FFFE), 0xDD);
    assert_eq!(m.read_byte(0x00FF_FFFF), 0xCC);
    assert_eq!(m.read_byte(0), 0);
    assert_eq!(m.read_byte(1), 0);
    assert_eq!(m.read_u32(0x00FF_FFFE), 0xAABB_CCDD);
}

#[test]
fn addresses_wrap_at_24_bits() {
    let mut m = Memory::new();
    m.write_u32(0x0100_0010, 77);
    assert_eq!(m.read_u32(0x10), 77);
    assert_eq!(m.read_u32(0xFF00_0010), 77);
}

#[test]
fn load_copies_prefix_and_zeroes_rest() {
    let code: Vec<u8> = vec![9, 8, 7];
    let m = Memory::load(&code);
    assert_eq!(m.read_byte(0), 9);
    assert_eq!(m.read_byte(1), 8);
    assert_eq!(m.read_byte(2), 7);
    assert_eq!(m.read_byte(3), 0);
    assert_eq!(m.read_byte(0x00FF_FFFF), 0);
}

#[test]
fn new_memory_is_zeroed() {
    let m = Memory::new();
    assert_eq!(m.read_u32(0), 0);
    assert_eq!(m.read_u32(0x00FF_FFFC), 0);
    assert_eq!(m.read_byte(0x0080_0000), 0);
}
