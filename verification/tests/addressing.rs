use mos6502::addressing::{resolve, Resolution};
use mos6502::{AddressingMode, Bus, Operand};

fn bus_with(bytes: &[(u16, u8)]) -> Bus {
    let mut bus = Bus::new();
    for (address, value) in bytes {
        bus.write(*address, *value);
    }
    bus
}

#[test]
fn operand_bytes_per_mode() {
    assert_eq!(AddressingMode::Implicit.operand_bytes(), 0);
    assert_eq!(AddressingMode::Accumulator.operand_bytes(), 0);
    assert_eq!(AddressingMode::Immediate.operand_bytes(), 1);
    assert_eq!(AddressingMode::ZeroPage.operand_bytes(), 1);
    assert_eq!(AddressingMode::ZeroPageX.operand_bytes(), 1);
    assert_eq!(AddressingMode::ZeroPageY.operand_bytes(), 1);
    assert_eq!(AddressingMode::Relative.operand_bytes(), 1);
    assert_eq!(AddressingMode::IndirectX.operand_bytes(), 1);
    assert_eq!(AddressingMode::IndirectY.operand_bytes(), 1);
    assert_eq!(AddressingMode::Absolute.operand_bytes(), 2);
    assert_eq!(AddressingMode::AbsoluteX.operand_bytes(), 2);
    assert_eq!(AddressingMode::AbsoluteY.operand_bytes(), 2);
    assert_eq!(AddressingMode::Indirect.operand_bytes(), 2);
}

#[test]
fn implicit_and_accumulator_take_no_bytes() {
    let bus = bus_with(&[(0x0601, 0x99)]);
    assert_eq!(
        resolve(&bus, 0x0601, 1, 2, AddressingMode::Implicit),
        Resolution { operand: Operand::Implied, consumed: 0 }
    );
    assert_eq!(
        resolve(&bus, 0x0601, 1, 2, AddressingMode::Accumulator),
        Resolution { operand: Operand::Accumulator, consumed: 0 }
    );
}

#[test]
fn immediate_is_the_byte_after_the_opcode() {
    let bus = bus_with(&[(0x0601, 0x42), (0x0042, 0x99)]);
    assert_eq!(
        resolve(&bus, 0x0601, 0, 0, AddressingMode::Immediate),
        Resolution { operand: Operand::Immediate(0x42), consumed: 1 }
    );
}

#[test]
fn zero_page_names_an_address_in_page_zero() {
    let bus = bus_with(&[(0x0601, 0x42)]);
    assert_eq!(
        resolve(&bus, 0x0601, 7, 9, AddressingMode::ZeroPage),
        Resolution { operand: Operand::Address(0x0042), consumed: 1 }
    );
}

#[test]
fn zero_page_indexed_adds_the_index() {
    let bus = bus_with(&[(0x0601, 0x42)]);
    assert_eq!(
        resolve(&bus, 0x0601, 0x05, 0x09, AddressingMode::ZeroPageX).operand,
        Operand::Address(0x0047)
    );
    assert_eq!(
        resolve(&bus, 0x0601, 0x05, 0x09, AddressingMode::ZeroPageY).operand,
        Operand::Address(0x004B)
    );
}

#[test]
fn zero_page_indexed_wraps_within_page_zero() {
    let bus = bus_with(&[(0x0601, 0xFF)]);
    assert_eq!(
        resolve(&bus, 0x0601, 0x02, 0x00, AddressingMode::ZeroPageX).operand,
        Operand::Address(0x0001)
    );
    assert_eq!(
        resolve(&bus, 0x0601, 0x00, 0xFF, AddressingMode::ZeroPageY).operand,
        Operand::Address(0x00FE)
    );
}

#[test]
fn absolute_reads_a_little_endian_address() {
    let bus = bus_with(&[(0x0601, 0x34), (0x0602, 0x12)]);
    assert_eq!(
        resolve(&bus, 0x0601, 1, 2, AddressingMode::Absolute),
        Resolution { operand: Operand::Address(0x1234), consumed: 2 }
    );
}

#[test]
fn absolute_indexed_crosses_pages() {
    let bus = bus_with(&[(0x0601, 0xFF), (0x0602, 0x01)]);
    assert_eq!(
        resolve(&bus, 0x0601, 0x01, 0x80, AddressingMode::AbsoluteX),
        Resolution { operand: Operand::Address(0x0200), consumed: 2 }
    );
    assert_eq!(
        resolve(&bus, 0x0601, 0x01, 0x80, AddressingMode::AbsoluteY),
        Resolution { operand: Operand::Address(0x027F), consumed: 2 }
    );
}

#[test]
fn absolute_indexed_wraps_at_the_end_of_the_address_space() {
    let bus = bus_with(&[(0x0601, 0xFF), (0x0602, 0xFF)]);
    assert_eq!(
        resolve(&bus, 0x0601, 0x02, 0x00, AddressingMode::AbsoluteX).operand,
        Operand::Address(0x0001)
    );
}

#[test]
fn indirect_reads_the_address_from_a_pointer() {
    let bus = bus_with(&[(0x0601, 0x20), (0x0602, 0x01), (0x0120, 0xFC), (0x0121, 0xBA)]);
    assert_eq!(
        resolve(&bus, 0x0601, 0, 0, AddressingMode::Indirect),
        Resolution { operand: Operand::Address(0xBAFC), consumed: 2 }
    );
}

#[test]
fn indexed_indirect_adds_x_to_the_pointer() {
    let bus = bus_with(&[(0x0601, 0x20), (0x0024, 0x74), (0x0025, 0x20)]);
    assert_eq!(
        resolve(&bus, 0x0601, 0x04, 0x10, AddressingMode::IndirectX),
        Resolution { operand: Operand::Address(0x2074), consumed: 1 }
    );
}

#[test]
fn indexed_indirect_pointer_wraps_within_page_zero() {
    let bus = bus_with(&[(0x0601, 0xFE), (0x00FF, 0x34), (0x0000, 0x12), (0x0100, 0x99)]);
    assert_eq!(
        resolve(&bus, 0x0601, 0x01, 0, AddressingMode::IndirectX).operand,
        Operand::Address(0x1234)
    );
    let bus = bus_with(&[(0x0601, 0xFF), (0x0001, 0x78), (0x0002, 0x56)]);
    assert_eq!(
        resolve(&bus, 0x0601, 0x02, 0, AddressingMode::IndirectX).operand,
        Operand::Address(0x5678)
    );
}

#[test]
fn indirect_indexed_adds_y_to_the_address() {
    let bus = bus_with(&[(0x0601, 0x86), (0x0086, 0x28), (0x0087, 0x40)]);
    assert_eq!(
        resolve(&bus, 0x0601, 0x04, 0x10, AddressingMode::IndirectY),
        Resolution { operand: Operand::Address(0x4038), consumed: 1 }
    );
}

#[test]
fn indirect_indexed_pointer_wraps_and_sum_crosses_pages() {
    let bus = bus_with(&[(0x0601, 0xFF), (0x00FF, 0xF0), (0x0000, 0x12), (0x0100, 0x99)]);
    assert_eq!(
        resolve(&bus, 0x0601, 0, 0x20, AddressingMode::IndirectY).operand,
        Operand::Address(0x1310)
    );
}

#[test]
fn relative_counts_from_the_next_instruction() {
    let bus = bus_with(&[(0x0611, 0x05)]);
    assert_eq!(
        resolve(&bus, 0x0611, 0, 0, AddressingMode::Relative),
        Resolution { operand: Operand::Address(0x0617), consumed: 1 }
    );
    let bus = bus_with(&[(0x0611, 0xFE)]);
    assert_eq!(
        resolve(&bus, 0x0611, 0, 0, AddressingMode::Relative).operand,
        Operand::Address(0x0610)
    );
    let bus = bus_with(&[(0x0611, 0x80)]);
    assert_eq!(
        resolve(&bus, 0x0611, 0, 0, AddressingMode::Relative).operand,
        Operand::Address(0x0592)
    );
    let bus = bus_with(&[(0x0611, 0x7F)]);
    assert_eq!(
        resolve(&bus, 0x0611, 0, 0, AddressingMode::Relative).operand,
        Operand::Address(0x0691)
    );
}

#[test]
fn relative_wraps_round_the_address_space() {
    let bus = bus_with(&[(0x0001, 0xF0)]);
    assert_eq!(
        resolve(&bus, 0x0001, 0, 0, AddressingMode::Relative).operand,
        Operand::Address(0xFFF2)
    );
    let bus = bus_with(&[(0xFFFE, 0x10)]);
    assert_eq!(
        resolve(&bus, 0xFFFE, 0, 0, AddressingMode::Relative).operand,
        Operand::Address(0x000F)
    );
}

#[test]
fn resolution_leaves_memory_alone() {
    let bus = bus_with(&[(0x0601, 0x20), (0x0602, 0x01), (0x0120, 0xFC), (0x0121, 0xBA)]);
    let modes = [
        AddressingMode::Implicit,
        AddressingMode::Accumulator,
        AddressingMode::Immediate,
        AddressingMode::ZeroPage,
        AddressingMode::ZeroPageX,
        AddressingMode::ZeroPageY,
        AddressingMode::Relative,
        AddressingMode::Absolute,
        AddressingMode::AbsoluteX,
        AddressingMode::AbsoluteY,
        AddressingMode::Indirect,
        AddressingMode::IndirectX,
        AddressingMode::IndirectY,
    ];
    for mode in modes {
        let first = resolve(&bus, 0x0601, 3, 4, mode);
        let second = resolve(&bus, 0x0601, 3, 4, mode);
        assert_eq!(first, second);
        assert_eq!(first.consumed, mode.operand_bytes());
    }
    assert_eq!(bus.read(0x0601), 0x20);
    assert_eq!(bus.read(0x0120), 0xFC);
}
