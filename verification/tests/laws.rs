use mos6502::{CpuError, Flag, CPU};

const OTHERS: [Flag; 6] = [
    Flag::Carry,
    Flag::InterruptDisable,
    Flag::Decimal,
    Flag::Break,
    Flag::Unused,
    Flag::Overflow,
];

#[test]
fn load_accumulator_for_every_value_and_status() {
    for value in 0..=255u8 {
        for status in [0x00u8, 0xFF, 0b0101_0101, 0b1010_1010, 0b0000_0010, 0b1000_0000] {
            let mut cpu = CPU::new();
            cpu.status = status;
            cpu.register_x = 0x11;
            cpu.register_y = 0x22;
            cpu.lda(value);
            assert_eq!(cpu.register_a, value);
            assert_eq!(cpu.flag(Flag::Zero), value == 0);
            assert_eq!(cpu.flag(Flag::Negative), value & 0x80 != 0);
            for other in OTHERS {
                assert_eq!(cpu.flag(other), status & other.mask() != 0);
            }
            assert_eq!(cpu.register_x, 0x11);
            assert_eq!(cpu.register_y, 0x22);
            assert_eq!(cpu.stack_pointer, 0xFD);
            assert_eq!(cpu.program_counter, 0);
        }
    }
}

#[test]
fn load_immediate_step_for_every_value() {
    for value in 0..=255u8 {
        let mut cpu = CPU::new();
        assert_eq!(cpu.load(&[0xA9, value], 0x0600), Ok(()));
        assert_eq!(cpu.step(), Ok(()));
        assert_eq!(cpu.register_a, value);
        assert_eq!(cpu.program_counter, 0x0602);
        assert_eq!(cpu.flag(Flag::Zero), value == 0);
        assert_eq!(cpu.flag(Flag::Negative), value >= 0x80);
    }
}

#[test]
fn increment_sets_zero_only_when_wrapping() {
    for value in 0..=255u8 {
        let mut cpu = CPU::new();
        cpu.register_x = value;
        cpu.register_y = value;
        cpu.memory.write(0x0040, value);
        cpu.inx();
        assert_eq!(cpu.register_x, if value == 0xFF { 0 } else { value + 1 });
        assert_eq!(cpu.flag(Flag::Zero), value == 0xFF);
        cpu.status = 0;
        cpu.iny();
        assert_eq!(cpu.register_y, if value == 0xFF { 0 } else { value + 1 });
        assert_eq!(cpu.flag(Flag::Zero), value == 0xFF);
        cpu.status = 0;
        cpu.inc(0x0040);
        assert_eq!(cpu.memory.read(0x0040), if value == 0xFF { 0 } else { value + 1 });
        assert_eq!(cpu.flag(Flag::Zero), value == 0xFF);
    }
}

#[test]
fn decrement_undoes_increment() {
    for value in 0..=255u8 {
        let mut cpu = CPU::new();
        cpu.register_x = value;
        cpu.register_y = value;
        cpu.inx();
        cpu.dex();
        cpu.dey();
        cpu.iny();
        assert_eq!(cpu.register_x, value);
        assert_eq!(cpu.register_y, value);
    }
}

#[test]
fn transfer_to_x_ignores_what_x_held() {
    for value in 0..=255u8 {
        for previous in [0x00u8, 0x01, 0x7F, 0x80, 0xFF] {
            let mut cpu = CPU::new();
            cpu.register_a = value;
            cpu.register_x = previous;
            cpu.update_z_n_flags(previous);
            cpu.tax();
            assert_eq!(cpu.register_x, value);
            assert_eq!(cpu.register_a, value);
            assert_eq!(cpu.flag(Flag::Zero), value == 0);
            assert_eq!(cpu.flag(Flag::Negative), value >= 0x80);
        }
    }
}

#[test]
fn push_then_pull_for_every_stack_pointer() {
    for pointer in 0..=255u8 {
        for value in [0x00u8, 0x01, 0x80, 0xFF, pointer] {
            let mut cpu = CPU::new();
            cpu.stack_pointer = pointer;
            cpu.push(value);
            assert_eq!(cpu.pull(), value);
            assert_eq!(cpu.stack_pointer, pointer);
        }
    }
}

#[test]
fn accumulator_and_status_survive_the_stack() {
    for value in 0..=255u8 {
        let mut cpu = CPU::new();
        cpu.register_a = value;
        cpu.pha();
        cpu.register_a = !value;
        cpu.pla();
        assert_eq!(cpu.register_a, value);
        assert_eq!(cpu.stack_pointer, 0xFD);

        cpu.status = value;
        cpu.php();
        cpu.status = !value;
        cpu.plp();
        assert_eq!(cpu.status, value);
        assert_eq!(cpu.stack_pointer, 0xFD);
    }
}

#[test]
fn stack_is_last_in_first_out() {
    let mut cpu = CPU::new();
    cpu.stack_pointer = 0x01;
    cpu.push(1);
    cpu.push(2);
    cpu.push(3);
    assert_eq!(cpu.stack_pointer, 0xFE);
    assert_eq!(cpu.pull(), 3);
    assert_eq!(cpu.pull(), 2);
    assert_eq!(cpu.pull(), 1);
    assert_eq!(cpu.stack_pointer, 0x01);
}

#[test]
fn call_then_return_for_many_addresses() {
    for counter in [0x0000u16, 0x0001, 0x00FF, 0x0100, 0x0603, 0x7FFF, 0x8000, 0xFF00, 0xFFFF] {
        for pointer in [0x00u8, 0x01, 0x02, 0xFD, 0xFF] {
            let mut cpu = CPU::new();
            cpu.program_counter = counter;
            cpu.stack_pointer = pointer;
            cpu.jsr(0x4000);
            assert_eq!(cpu.program_counter, 0x4000);
            cpu.rts();
            assert_eq!(cpu.program_counter, counter);
            assert_eq!(cpu.stack_pointer, pointer);
        }
    }
}

#[test]
fn branch_step_for_every_displacement() {
    let branches: [(u8, Flag, bool); 8] = [
        (0x10, Flag::Negative, false),
        (0x30, Flag::Negative, true),
        (0x50, Flag::Overflow, false),
        (0x70, Flag::Overflow, true),
        (0x90, Flag::Carry, false),
        (0xB0, Flag::Carry, true),
        (0xD0, Flag::Zero, false),
        (0xF0, Flag::Zero, true),
    ];
    for (opcode, flag, wanted) in branches {
        for displacement in 0..=255u8 {
            for set in [false, true] {
                let mut cpu = CPU::new();
                assert_eq!(cpu.load(&[opcode, displacement], 0x0680), Ok(()));
                cpu.set_flag(flag, set);
                let status = cpu.status;
                assert_eq!(cpu.step(), Ok(()));
                let next = 0x0682i32;
                let moved = next + (displacement as i8) as i32;
                let expected = if set == wanted { moved } else { next };
                assert_eq!(cpu.program_counter as i32, expected);
                assert_eq!(cpu.status, status);
                assert_eq!(cpu.register_a, 0);
                assert_eq!(cpu.stack_pointer, 0xFD);
                assert!(!cpu.halted);
            }
        }
    }
}

#[test]
fn branch_step_wraps_round_the_address_space() {
    let mut cpu = CPU::new();
    assert_eq!(cpu.load(&[0xD0, 0x80], 0x0010), Ok(()));
    assert_eq!(cpu.step(), Ok(()));
    assert_eq!(cpu.program_counter, 0xFF92);
    let mut cpu = CPU::new();
    assert_eq!(cpu.load(&[0xD0, 0x7F], 0xFFFE), Ok(()));
    assert_eq!(cpu.step(), Ok(()));
    assert_eq!(cpu.program_counter, 0x007F);
}

#[test]
fn sequential_instructions_advance_by_their_length() {
    for opcode in 0..=255u8 {
        let Some(entry) = mos6502::opcode::decode(opcode) else {
            continue;
        };
        let jumps = matches!(
            entry.operation,
            mos6502::Operation::Jump
                | mos6502::Operation::JumpSubroutine
                | mos6502::Operation::ReturnSubroutine
                | mos6502::Operation::ReturnInterrupt
        );
        if jumps || entry.mode == mos6502::AddressingMode::Relative {
            continue;
        }
        let mut cpu = CPU::new();
        assert_eq!(cpu.load(&[opcode, 0x10, 0x02], 0x0600), Ok(()));
        assert_eq!(cpu.step(), Ok(()));
        assert_eq!(cpu.program_counter, 0x0600 + entry.length as u16);
    }
}

#[test]
fn illegal_opcodes_fail_and_halt_for_every_such_byte() {
    for opcode in 0..=255u8 {
        if mos6502::opcode::decode(opcode).is_some() {
            continue;
        }
        let mut cpu = CPU::new();
        assert_eq!(cpu.load(&[opcode], 0x0600), Ok(()));
        assert_eq!(cpu.step(), Err(CpuError::IllegalOpcode { opcode, address: 0x0600 }));
        assert!(cpu.halted);
        assert_eq!(cpu.program_counter, 0x0601);
        assert_eq!(cpu.status, 0);
    }
}

#[test]
fn compare_flags_for_every_pair() {
    for register in 0..=255u8 {
        for value in 0..=255u8 {
            let mut cpu = CPU::new();
            cpu.compare(register, value);
            assert_eq!(cpu.flag(Flag::Carry), register >= value);
            assert_eq!(cpu.flag(Flag::Zero), register == value);
            assert_eq!(cpu.flag(Flag::Negative), register.wrapping_sub(value) >= 0x80);
        }
    }
}
