use mos6502::bus::MEMORY_SIZE;
use mos6502::{Bus, CpuError};

#[test]
fn new_bus_is_all_zero() {
    let bus = Bus::new();
    assert_eq!(bus.read(0x0000), 0);
    assert_eq!(bus.read(0x1234), 0);
    assert_eq!(bus.read(0xFFFF), 0);
    assert_eq!(MEMORY_SIZE, 65536);
}

#[test]
fn write_changes_one_byte_only() {
    let mut bus = Bus::new();
    bus.write(0x1234, 0xAB);
    assert_eq!(bus.read(0x1234), 0xAB);
    assert_eq!(bus.read(0x1233), 0);
    assert_eq!(bus.read(0x1235), 0);
    bus.write(0x1234, 0xCD);
    assert_eq!(bus.read(0x1234), 0xCD);
}

#[test]
fn every_address_can_be_written_and_read() {
    let mut bus = Bus::new();
    for address in 0..=0xFFFFu16 {
        bus.write(address, (address % 251) as u8);
    }
    for address in 0..=0xFFFFu16 {
        assert_eq!(bus.read(address), (address % 251) as u8);
    }
}

#[test]
fn words_are_little_endian() {
    let mut bus = Bus::new();
    bus.write(0x0010, 0x34);
    bus.write(0x0011, 0x12);
    assert_eq!(bus.read_word(0x0010), 0x1234);
    bus.write_word(0x0020, 0xBEEF);
    assert_eq!(bus.read(0x0020), 0xEF);
    assert_eq!(bus.read(0x0021), 0xBE);
    assert_eq!(bus.read_word(0x0020), 0xBEEF);
}

#[test]
fn word_at_the_last_address_wraps_to_the_first() {
    let mut bus = Bus::new();
    bus.write_word(0xFFFF, 0xA1B2);
    assert_eq!(bus.read(0xFFFF), 0xB2);
    assert_eq!(bus.read(0x0000), 0xA1);
    assert_eq!(bus.read_word(0xFFFF), 0xA1B2);
}

#[test]
fn load_copies_the_program_and_nothing_else() {
    let mut bus = Bus::new();
    bus.write(0x05FF, 0x11);
    bus.write(0x0603, 0x22);
    assert_eq!(bus.load(&[0xA9, 0x05, 0x00], 0x0600), Ok(()));
    assert_eq!(bus.read(0x05FF), 0x11);
    assert_eq!(bus.read(0x0600), 0xA9);
    assert_eq!(bus.read(0x0601), 0x05);
    assert_eq!(bus.read(0x0602), 0x00);
    assert_eq!(bus.read(0x0603), 0x22);
}

#[test]
fn load_accepts_a_program_that_ends_at_the_last_address() {
    let mut bus = Bus::new();
    assert_eq!(bus.load(&[1, 2, 3], 0xFFFD), Ok(()));
    assert_eq!(bus.read(0xFFFD), 1);
    assert_eq!(bus.read(0xFFFE), 2);
    assert_eq!(bus.read(0xFFFF), 3);
    assert_eq!(bus.read(0x0000), 0);
}

#[test]
fn load_accepts_a_program_that_fills_memory() {
    let mut bus = Bus::new();
    let program = vec![0x5A; 0x1_0000];
    assert_eq!(bus.load(&program, 0), Ok(()));
    assert_eq!(bus.read(0x0000), 0x5A);
    assert_eq!(bus.read(0xFFFF), 0x5A);
}

#[test]
fn load_accepts_an_empty_program_anywhere() {
    let mut bus = Bus::new();
    assert_eq!(bus.load(&[], 0xFFFF), Ok(()));
    assert_eq!(bus.read(0xFFFF), 0);
}

#[test]
fn load_rejects_a_program_that_runs_past_the_end() {
    let mut bus = Bus::new();
    bus.write(0xFFFE, 0x77);
    assert_eq!(
        bus.load(&[1, 2, 3], 0xFFFE),
        Err(CpuError::ProgramTooLarge { length: 3, address: 0xFFFE })
    );
    assert_eq!(bus.read(0xFFFE), 0x77);
    assert_eq!(bus.read(0xFFFF), 0);
    assert_eq!(bus.read(0x0000), 0);
}

#[test]
fn clear_zeroes_every_byte() {
    let mut bus = Bus::new();
    bus.write(0x0000, 1);
    bus.write(0x8000, 2);
    bus.write(0xFFFF, 3);
    bus.clear();
    assert_eq!(bus.read(0x0000), 0);
    assert_eq!(bus.read(0x8000), 0);
    assert_eq!(bus.read(0xFFFF), 0);
}
