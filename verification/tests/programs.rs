use mos6502::{CpuError, Flag, CPU};

#[test]
fn test_lda_immediate_load_data() {
    let mut cpu = CPU::new();
    assert_eq!(cpu.interpret(vec![0xa9, 0x05, 0x00]), Ok(()));
    // assert we've loaded a 5 into the register
    assert_eq!(cpu.register_a, 0x05);
    // assert it's a non-zero number by looking at the 0 flag
    assert!(cpu.status & 0b0000_0010 == 0b00);
    // assert it's a positive number by looking at the negative flag
    assert!(cpu.status & 0b1000_0000 == 0);
}

#[test]
fn test_lda_load_zero() {
    let mut cpu = CPU::new();
    assert_eq!(cpu.interpret(vec![0xa9, 0x00, 0x00]), Ok(()));
    // assert we've loaded a 0 into the register
    assert_eq!(cpu.register_a, 0x00);
    // assert it's a zero by looking at the 0 flag
    assert!(cpu.status & 0b0000_0010 == 0b10);
    // assert it's a positive number by looking at the negative flag (0 is positive for
    // practical purposes)
    assert!(cpu.status & 0b1000_0000 == 0);
}

#[test]
fn test_tax_load_data() {
    let mut cpu = CPU::new();
    assert_eq!(cpu.interpret(vec![0xa9, 0x05, 0xaa, 0x00]), Ok(()));
    assert_eq!(cpu.register_a, 0x05);
    assert_eq!(cpu.register_x, 0x05);
    // assert it's a non-zero number by looking at the 0 flag
    assert!(cpu.status & 0b0000_0010 == 0b00);
    // assert it's a positive number by looking at the negative flag
    assert!(cpu.status & 0b1000_0000 == 0);
}

#[test]
fn test_5_ops_working_together() {
    let mut cpu = CPU::new();
    assert_eq!(cpu.interpret(vec![0xa9, 0xc0, 0xaa, 0xe8, 0x00]), Ok(()));

    assert_eq!(cpu.register_x, 0xc1)
}

#[test]
fn test_inx_overflow() {
    let mut cpu = CPU::new();
    cpu.register_x = 0xff;
    assert_eq!(cpu.interpret(vec![0xe8, 0xe8, 0x00]), Ok(()));

    assert_eq!(cpu.register_x, 1)
}

#[test]
fn interpret_halts_after_the_break_opcode() {
    let mut cpu = CPU::new();
    assert_eq!(cpu.interpret(vec![0xa9, 0x05, 0x00]), Ok(()));
    assert!(cpu.halted);
    assert_eq!(cpu.program_counter, 3);
    assert!(!cpu.flag(Flag::Zero));
    assert!(!cpu.flag(Flag::Negative));
}

#[test]
fn interpret_reports_an_illegal_opcode() {
    let mut cpu = CPU::new();
    assert_eq!(
        cpu.interpret(vec![0xa9, 0x05, 0x02, 0x00]),
        Err(CpuError::IllegalOpcode { opcode: 0x02, address: 2 })
    );
    assert!(cpu.halted);
    assert_eq!(cpu.register_a, 5);
    assert_eq!(cpu.program_counter, 3);
}

#[test]
fn interpret_rejects_a_program_larger_than_memory() {
    let mut cpu = CPU::new();
    cpu.register_a = 7;
    assert_eq!(
        cpu.interpret(vec![0xea; 0x1_0001]),
        Err(CpuError::ProgramTooLarge { length: 0x1_0001, address: 0 })
    );
    assert_eq!(cpu.register_a, 7);
    assert_eq!(cpu.program_counter, 0);
    assert_eq!(cpu.memory.read(0), 0);
}

fn run_at(address: u16, program: &[u8]) -> CPU {
    let mut cpu = CPU::new();
    assert_eq!(cpu.load(program, address), Ok(()));
    assert_eq!(cpu.run(100_000), Ok(()));
    assert!(cpu.halted);
    cpu
}

#[test]
fn interpret_keeps_the_registers_it_was_given() {
    let mut cpu = CPU::new();
    cpu.register_a = 0x10;
    cpu.register_y = 0x20;
    cpu.stack_pointer = 0x80;
    cpu.status = 0b0000_0001;
    assert_eq!(cpu.interpret(vec![0xe8, 0x00]), Ok(()));
    assert_eq!(cpu.register_a, 0x10);
    assert_eq!(cpu.register_x, 0x01);
    assert_eq!(cpu.register_y, 0x20);
    assert_eq!(cpu.stack_pointer, 0x80);
    assert_eq!(cpu.status, 0b0000_0001);
}

#[test]
fn interpret_can_be_called_again_after_a_halt() {
    let mut cpu = CPU::new();
    assert_eq!(cpu.interpret(vec![0xa9, 0x05, 0x00]), Ok(()));
    assert!(cpu.halted);
    assert_eq!(cpu.interpret(vec![0xaa, 0x00]), Ok(()));
    assert_eq!(cpu.register_x, 0x05);
    assert_eq!(cpu.program_counter, 2);
}

#[test]
fn interpret_an_empty_program_halts_on_zeroed_memory() {
    let mut cpu = CPU::new();
    assert_eq!(cpu.interpret(vec![]), Ok(()));
    assert!(cpu.halted);
    assert_eq!(cpu.program_counter, 1);
}

#[test]
fn interpret_follows_jumps_from_address_zero() {
    let mut cpu = CPU::new();
    // JMP $0005; LDA #$01; (at 5) LDX #$07; BRK
    assert_eq!(cpu.interpret(vec![0x4c, 0x05, 0x00, 0xa9, 0x01, 0xa2, 0x07, 0x00]), Ok(()));
    assert_eq!(cpu.register_a, 0);
    assert_eq!(cpu.register_x, 7);
    assert_eq!(cpu.program_counter, 8);
}

#[test]
fn countdown_loop() {
    // LDX #$08; DEX; STX $0200; CPX #$03; BNE -8; STX $0201; BRK
    let cpu = run_at(
        0x0600,
        &[0xa2, 0x08, 0xca, 0x8e, 0x00, 0x02, 0xe0, 0x03, 0xd0, 0xf8, 0x8e, 0x01, 0x02, 0x00],
    );
    assert_eq!(cpu.register_x, 3);
    assert_eq!(cpu.memory.read(0x0200), 3);
    assert_eq!(cpu.memory.read(0x0201), 3);
    assert_eq!(cpu.program_counter, 0x060e);
    assert!(cpu.flag(Flag::Zero));
    assert!(cpu.flag(Flag::Carry));
}

#[test]
fn subroutines_call_and_return() {
    // JSR init; JSR loop; JSR end; init: LDX #$00; RTS; loop: INX; CPX #$05; BNE loop; RTS;
    // end: BRK
    let cpu = run_at(
        0x0600,
        &[
            0x20, 0x09, 0x06, 0x20, 0x0c, 0x06, 0x20, 0x12, 0x06, 0xa2, 0x00, 0x60, 0xe8, 0xe0,
            0x05, 0xd0, 0xfb, 0x60, 0x00,
        ],
    );
    assert_eq!(cpu.register_x, 5);
    assert_eq!(cpu.program_counter, 0x0613);
    assert_eq!(cpu.stack_pointer, 0xfb);
    assert_eq!(cpu.memory.read(0x01fd), 0x06);
    assert_eq!(cpu.memory.read(0x01fc), 0x08);
}

#[test]
fn sum_of_one_to_ten() {
    // LDA #$00; LDX #$0A; loop: STX $10; CLC; ADC $10; DEX; BNE loop; STA $0200; BRK
    let cpu = run_at(
        0x8000,
        &[
            0xa9, 0x00, 0xa2, 0x0a, 0x86, 0x10, 0x18, 0x65, 0x10, 0xca, 0xd0, 0xf8, 0x8d, 0x00,
            0x02, 0x00,
        ],
    );
    assert_eq!(cpu.register_a, 55);
    assert_eq!(cpu.memory.read(0x0200), 55);
    assert_eq!(cpu.register_x, 0);
}

#[test]
fn sixteen_bit_addition_with_carry() {
    // $0010/11 = $01F0, $0012/13 = $0020; sum to $0014/15.
    // CLC; LDA $10; ADC $12; STA $14; LDA $11; ADC $13; STA $15; BRK
    let mut cpu = CPU::new();
    cpu.memory.write_word(0x0010, 0x01f0);
    cpu.memory.write_word(0x0012, 0x0020);
    assert_eq!(
        cpu.load(
            &[0x18, 0xa5, 0x10, 0x65, 0x12, 0x85, 0x14, 0xa5, 0x11, 0x65, 0x13, 0x85, 0x15, 0x00],
            0x0600
        ),
        Ok(())
    );
    assert_eq!(cpu.run(100), Ok(()));
    assert_eq!(cpu.memory.read_word(0x0014), 0x0210);
}

#[test]
fn indexed_copy_through_pointers() {
    // Copy four bytes from ($20),Y to $0300,X.
    // LDY #$00; LDX #$00; loop: LDA ($20),Y; STA $0300,X; INY; INX; CPX #$04; BNE loop; BRK
    let mut cpu = CPU::new();
    cpu.memory.write_word(0x0020, 0x0400);
    assert_eq!(cpu.memory.load(&[0xde, 0xad, 0xbe, 0xef], 0x0400), Ok(()));
    assert_eq!(
        cpu.load(
            &[
                0xa0, 0x00, 0xa2, 0x00, 0xb1, 0x20, 0x9d, 0x00, 0x03, 0xc8, 0xe8, 0xe0, 0x04,
                0xd0, 0xf5, 0x00
            ],
            0x0600
        ),
        Ok(())
    );
    assert_eq!(cpu.run(1_000), Ok(()));
    assert!(cpu.halted);
    assert_eq!(cpu.memory.read(0x0300), 0xde);
    assert_eq!(cpu.memory.read(0x0301), 0xad);
    assert_eq!(cpu.memory.read(0x0302), 0xbe);
    assert_eq!(cpu.memory.read(0x0303), 0xef);
    assert_eq!(cpu.memory.read(0x0304), 0x00);
}

#[test]
fn multiply_by_shifting() {
    // A = 13 * 5 by shift and add: LDA #13; STA $10; ASL A; ASL A; CLC; ADC $10; BRK
    let cpu = run_at(0x0600, &[0xa9, 0x0d, 0x85, 0x10, 0x0a, 0x0a, 0x18, 0x65, 0x10, 0x00]);
    assert_eq!(cpu.register_a, 65);
}

#[test]
fn stack_instructions_in_a_program() {
    // LDA #$AA; PHA; LDA #$00; PHP; PLA; TAX; PLA; BRK
    let cpu = run_at(0x0600, &[0xa9, 0xaa, 0x48, 0xa9, 0x00, 0x08, 0x68, 0xaa, 0x68, 0x00]);
    assert_eq!(cpu.register_x, 0b0000_0010);
    assert_eq!(cpu.register_a, 0xaa);
    assert_eq!(cpu.stack_pointer, 0xfd);
    assert!(cpu.flag(Flag::Negative));
}

#[test]
fn indirect_jump_in_a_program() {
    // JMP ($0010) with $0010 = $0608; skipped: LDA #$FF; at $0608: LDX #$01; BRK
    let mut cpu = CPU::new();
    cpu.memory.write_word(0x0010, 0x0608);
    assert_eq!(
        cpu.load(&[0x6c, 0x10, 0x00, 0xa9, 0xff, 0xea, 0xea, 0xea, 0xa2, 0x01, 0x00], 0x0600),
        Ok(())
    );
    assert_eq!(cpu.run(100), Ok(()));
    assert_eq!(cpu.register_a, 0);
    assert_eq!(cpu.register_x, 1);
    assert_eq!(cpu.program_counter, 0x060b);
}
