//! The operations of the instruction set, one method each, and the
//! dispatcher that picks the method for a decoded instruction.
use vstd::prelude::*;
use crate::addressing::{resolve, Operand};
use crate::alu::{
    add_with_carry, rotate_left, rotate_right, shift_left, shift_right, subtract_with_carry,
    Shifted, Sum,
};
use crate::cpu::CPU;
use crate::opcode::{OpcodeEntry, Operation};
use crate::status::{is_negative, is_set, lemma_bit_seven, spec_is_negative, Flag};

verus! {

impl CPU {
    /// LDA: loads `value` into the accumulator. Zero is set exactly when the
    /// value is zero, Negative exactly when its bit 7 is set; no other flag
    /// and nothing else changes.
    pub fn lda(&mut self, value: u8)
        ensures
            final(self)@ == old(self)@.lda(value),
            final(self).register_a == value,
            final(self)@.flag(Flag::Zero) == (value == 0),
            final(self)@.flag(Flag::Negative) == (value & 0b1000_0000 != 0),
            final(self)@.flag(Flag::Negative) == (value >= 0x80),
            forall|other: Flag|
                other != Flag::Zero && other != Flag::Negative ==> final(self)@.flag(other) == old(
                    self,
                )@.flag(other),
    {
        proof {
            lemma_bit_seven(value);
        }
        self.register_a = value;
        self.update_z_n_flags(value);
    }

    /// LDX: loads `value` into X and sets Zero and Negative from it.
    pub fn ldx(&mut self, value: u8)
        ensures
            final(self)@ == old(self)@.ldx(value),
    {
        self.register_x = value;
        self.update_z_n_flags(value);
    }

    /// LDY: loads `value` into Y and sets Zero and Negative from it.
    pub fn ldy(&mut self, value: u8)
        ensures
            final(self)@ == old(self)@.ldy(value),
    {
        self.register_y = value;
        self.update_z_n_flags(value);
    }

    /// STA: stores the accumulator at `address`.
    pub fn sta(&mut self, address: u16)
        ensures
            final(self)@ == old(self)@.sta(address),
    {
        self.memory.write(address, self.register_a);
    }

    /// STX: stores X at `address`.
    pub fn stx(&mut self, address: u16)
        ensures
            final(self)@ == old(self)@.stx(address),
    {
        self.memory.write(address, self.register_x);
    }

    /// STY: stores Y at `address`.
    pub fn sty(&mut self, address: u16)
        ensures
            final(self)@ == old(self)@.sty(address),
    {
        self.memory.write(address, self.register_y);
    }

    /// TAX: copies the accumulator to X, whatever X held, and sets Zero and
    /// Negative from the value that X now holds.
    pub fn tax(&mut self)
        ensures
            final(self)@ == old(self)@.tax(),
            final(self).register_x == old(self).register_a,
            final(self)@.flag(Flag::Zero) == (final(self).register_x == 0),
            final(self)@.flag(Flag::Negative) == spec_is_negative(final(self).register_x),
    {
        self.register_x = self.register_a;
        self.update_z_n_flags(self.register_x);
    }

    /// TAY: copies the accumulator to Y and sets Zero and Negative from it.
    pub fn tay(&mut self)
        ensures
            final(self)@ == old(self)@.tay(),
    {
        self.register_y = self.register_a;
        self.update_z_n_flags(self.register_y);
    }

    /// TXA: copies X to the accumulator and sets Zero and Negative from it.
    pub fn txa(&mut self)
        ensures
            final(self)@ == old(self)@.txa(),
    {
        self.register_a = self.register_x;
        self.update_z_n_flags(self.register_a);
    }

    /// TYA: copies Y to the accumulator and sets Zero and Negative from it.
    pub fn tya(&mut self)
        ensures
            final(self)@ == old(self)@.tya(),
    {
        self.register_a = self.register_y;
        self.update_z_n_flags(self.register_a);
    }

    /// TSX: copies the stack pointer to X and sets Zero and Negative from
    /// it.
    pub fn tsx(&mut self)
        ensures
            final(self)@ == old(self)@.tsx(),
    {
        self.register_x = self.stack_pointer;
        self.update_z_n_flags(self.register_x);
    }

    /// TXS: copies X to the stack pointer. The flags are left alone.
    pub fn txs(&mut self)
        ensures
            final(self)@ == old(self)@.txs(),
    {
        self.stack_pointer = self.register_x;
    }

    /// PHA: pushes the accumulator.
    pub fn pha(&mut self)
        ensures
            final(self)@ == old(self)@.pha(),
    {
        self.push(self.register_a);
    }

    /// PHP: pushes the status byte.
    pub fn php(&mut self)
        ensures
            final(self)@ == old(self)@.php(),
    {
        self.push(self.status);
    }

    /// PLA: pulls the accumulator and sets Zero and Negative from it.
    pub fn pla(&mut self)
        ensures
            final(self)@ == old(self)@.pla(),
    {
        let value = self.pull();
        self.register_a = value;
        self.update_z_n_flags(value);
    }

    /// PLP: pulls the status byte.
    pub fn plp(&mut self)
        ensures
            final(self)@ == old(self)@.plp(),
    {
        let value = self.pull();
        self.status = value;
    }

    /// AND: keeps in the accumulator the bits that `value` has too.
    pub fn and(&mut self, value: u8)
        ensures
            final(self)@ == old(self)@.and(value),
    {
        self.lda(self.register_a & value);
    }

    /// EOR: flips in the accumulator the bits that `value` has.
    pub fn eor(&mut self, value: u8)
        ensures
            final(self)@ == old(self)@.eor(value),
    {
        self.lda(self.register_a ^ value);
    }

    /// ORA: sets in the accumulator the bits that `value` has.
    pub fn ora(&mut self, value: u8)
        ensures
            final(self)@ == old(self)@.ora(value),
    {
        self.lda(self.register_a | value);
    }

    /// BIT: sets Zero if accumulator and `value` share no bit, and copies
    /// bits 6 and 7 of `value` to Overflow and Negative.
    pub fn bit(&mut self, value: u8)
        ensures
            final(self)@ == old(self)@.bit(value),
    {
        self.set_flag(Flag::Zero, self.register_a & value == 0);
        self.set_flag(Flag::Overflow, is_set(value, Flag::Overflow));
        self.set_flag(Flag::Negative, is_negative(value));
    }

    /// Stores the outcome of an addition or a subtraction: the value in the
    /// accumulator, and Carry, Overflow, Zero and Negative.
    pub fn store_sum(&mut self, sum: Sum)
        ensures
            final(self)@ == old(self)@.with_sum(sum),
    {
        self.register_a = sum.value;
        self.set_flag(Flag::Carry, sum.carry);
        self.set_flag(Flag::Overflow, sum.overflow);
        self.update_z_n_flags(sum.value);
    }

    /// ADC: adds `value` and the carry to the accumulator. The sum is
    /// always binary: the Decimal flag is kept but has no effect.
    pub fn adc(&mut self, value: u8)
        ensures
            final(self)@ == old(self)@.adc(value),
    {
        let sum = add_with_carry(self.register_a, value, self.flag(Flag::Carry));
        self.store_sum(sum);
    }

    /// SBC: subtracts `value` from the accumulator, and one more if the
    /// carry is clear. The difference is always binary.
    pub fn sbc(&mut self, value: u8)
        ensures
            final(self)@ == old(self)@.sbc(value),
    {
        let difference = subtract_with_carry(self.register_a, value, self.flag(Flag::Carry));
        self.store_sum(difference);
    }

    /// Compares `register` with `value`: Carry is set if the register is not
    /// below the value, Zero if they are equal, and Negative repeats bit 7
    /// of their difference. No register changes.
    pub fn compare(&mut self, register: u8, value: u8)
        ensures
            final(self)@ == old(self)@.compare(register, value),
            final(self)@.flag(Flag::Carry) == (register >= value),
            final(self)@.flag(Flag::Zero) == (register == value),
    {
        self.set_flag(Flag::Carry, register >= value);
        self.update_z_n_flags(register.wrapping_sub(value));
    }

    /// Compares the accumulator with `value`.
    pub fn cpa(&mut self, value: u8)
        ensures
            final(self)@ == old(self)@.cpa(value),
    {
        self.compare(self.register_a, value);
    }

    /// CPX: compares X with `value`.
    pub fn cpx(&mut self, value: u8)
        ensures
            final(self)@ == old(self)@.cpx(value),
    {
        self.compare(self.register_x, value);
    }

    /// CPY: compares Y with `value`.
    pub fn cpy(&mut self, value: u8)
        ensures
            final(self)@ == old(self)@.cpy(value),
    {
        self.compare(self.register_y, value);
    }

    /// INC: adds one to the byte at `address`, wrapping from `0xFF` to zero,
    /// and sets Zero and Negative from the new value.
    pub fn inc(&mut self, address: u16)
        ensures
            final(self)@ == old(self)@.inc(address),
    {
        let value = self.memory.read(address).wrapping_add(1);
        self.memory.write(address, value);
        self.update_z_n_flags(value);
    }

    /// DEC: subtracts one from the byte at `address`, wrapping from zero to
    /// `0xFF`, and sets Zero and Negative from the new value.
    pub fn dec(&mut self, address: u16)
        ensures
            final(self)@ == old(self)@.dec(address),
    {
        let value = self.memory.read(address).wrapping_sub(1);
        self.memory.write(address, value);
        self.update_z_n_flags(value);
    }

    /// INX: adds one to X. `0xFF` wraps to zero, and only then is Zero set.
    pub fn inx(&mut self)
        ensures
            final(self)@ == old(self)@.inx(),
            final(self).register_x == (if old(self).register_x == 0xFF {
                0
            } else {
                old(self).register_x + 1
            }),
            final(self)@.flag(Flag::Zero) == (old(self).register_x == 0xFF),
            final(self)@.flag(Flag::Negative) == spec_is_negative(final(self).register_x),
    {
        self.register_x = self.register_x.wrapping_add(1);
        self.update_z_n_flags(self.register_x);
    }

    /// INY: adds one to Y. `0xFF` wraps to zero, and only then is Zero set.
    pub fn iny(&mut self)
        ensures
            final(self)@ == old(self)@.iny(),
            final(self)@.flag(Flag::Zero) == (old(self).register_y == 0xFF),
    {
        self.register_y = self.register_y.wrapping_add(1);
        self.update_z_n_flags(self.register_y);
    }

    /// DEX: subtracts one from X. Zero wraps to `0xFF`.
    pub fn dex(&mut self)
        ensures
            final(self)@ == old(self)@.dex(),
            final(self)@.flag(Flag::Zero) == (old(self).register_x == 1),
    {
        self.register_x = self.register_x.wrapping_sub(1);
        self.update_z_n_flags(self.register_x);
    }

    /// DEY: subtracts one from Y. Zero wraps to `0xFF`.
    pub fn dey(&mut self)
        ensures
            final(self)@ == old(self)@.dey(),
            final(self)@.flag(Flag::Zero) == (old(self).register_y == 1),
    {
        self.register_y = self.register_y.wrapping_sub(1);
        self.update_z_n_flags(self.register_y);
    }

    /// Stores the outcome of a shift or a rotation: the value in the
    /// operand, the bit that left in Carry, and Zero and Negative.
    pub fn store_shifted(&mut self, operand: Operand, shifted: Shifted)
        ensures
            final(self)@ == old(self)@.with_shifted(operand, shifted),
    {
        self.store_operand(operand, shifted.value);
        self.set_flag(Flag::Carry, shifted.carry);
        self.update_z_n_flags(shifted.value);
    }

    /// ASL: shifts the operand left by one bit. Bit 7 goes to Carry.
    pub fn asl(&mut self, operand: Operand)
        ensures
            final(self)@ == old(self)@.asl(operand),
    {
        let shifted = shift_left(self.value_of(operand));
        self.store_shifted(operand, shifted);
    }

    /// LSR: shifts the operand right by one bit. Bit 0 goes to Carry.
    pub fn lsr(&mut self, operand: Operand)
        ensures
            final(self)@ == old(self)@.lsr(operand),
    {
        let shifted = shift_right(self.value_of(operand));
        self.store_shifted(operand, shifted);
    }

    /// ROL: rotates the operand left by one bit through Carry.
    pub fn rol(&mut self, operand: Operand)
        ensures
            final(self)@ == old(self)@.rol(operand),
    {
        let rotated = rotate_left(self.value_of(operand), self.flag(Flag::Carry));
        self.store_shifted(operand, rotated);
    }

    /// ROR: rotates the operand right by one bit through Carry.
    pub fn ror(&mut self, operand: Operand)
        ensures
            final(self)@ == old(self)@.ror(operand),
    {
        let rotated = rotate_right(self.value_of(operand), self.flag(Flag::Carry));
        self.store_shifted(operand, rotated);
    }

    /// JMP: continues at `address`.
    pub fn jmp(&mut self, address: u16)
        ensures
            final(self)@ == old(self)@.jmp(address),
    {
        self.program_counter = address;
    }

    /// JSR: pushes the address of the last byte of the call instruction,
    /// high byte first, and continues at `address`. The program counter
    /// must already stand behind the instruction.
    pub fn jsr(&mut self, address: u16)
        ensures
            final(self)@ == old(self)@.jsr(address),
    {
        let link = self.program_counter.wrapping_sub(1);
        self.push((link / 0x100) as u8);
        self.push((link % 0x100) as u8);
        self.program_counter = address;
    }

    /// RTS: pulls the address that a call pushed and continues one byte
    /// after it.
    pub fn rts(&mut self)
        ensures
            final(self)@ == old(self)@.rts(),
    {
        let low = self.pull();
        let high = self.pull();
        self.program_counter = ((high as u16) * 0x100 + low as u16).wrapping_add(1);
    }

    /// RTI: pulls the status byte, then an address, and continues at that
    /// address.
    pub fn rti(&mut self)
        ensures
            final(self)@ == old(self)@.rti(),
    {
        self.plp();
        let low = self.pull();
        let high = self.pull();
        self.program_counter = (high as u16) * 0x100 + low as u16;
    }

    /// A conditional branch: continues at `target` if `taken` holds, and
    /// changes nothing otherwise. The flags are never changed.
    pub fn branch(&mut self, taken: bool, target: u16)
        ensures
            final(self)@ == old(self)@.branch(taken, target),
            !taken ==> final(self)@ == old(self)@,
            taken ==> final(self).program_counter == target,
    {
        if taken {
            self.program_counter = target;
        }
    }

    /// BRK: halts the processor.
    pub fn brk(&mut self)
        ensures
            final(self)@ == old(self)@.brk(),
    {
        self.halted = true;
    }

    /// Lets `operation` work on `operand`. An operation that is handed an
    /// operand which it cannot take does nothing.
    pub fn apply(&mut self, operation: Operation, operand: Operand)
        ensures
            final(self)@ == old(self)@.apply(operation, operand),
    {
        match operation {
            Operation::LoadA => self.lda(self.value_of(operand)),
            Operation::LoadX => self.ldx(self.value_of(operand)),
            Operation::LoadY => self.ldy(self.value_of(operand)),
            Operation::And => self.and(self.value_of(operand)),
            Operation::ExclusiveOr => self.eor(self.value_of(operand)),
            Operation::Or => self.ora(self.value_of(operand)),
            Operation::BitTest => self.bit(self.value_of(operand)),
            Operation::AddWithCarry => self.adc(self.value_of(operand)),
            Operation::SubtractWithCarry => self.sbc(self.value_of(operand)),
            Operation::CompareA => self.cpa(self.value_of(operand)),
            Operation::CompareX => self.cpx(self.value_of(operand)),
            Operation::CompareY => self.cpy(self.value_of(operand)),
            Operation::ShiftLeft => self.asl(operand),
            Operation::ShiftRight => self.lsr(operand),
            Operation::RotateLeft => self.rol(operand),
            Operation::RotateRight => self.ror(operand),
            Operation::TransferAX => self.tax(),
            Operation::TransferAY => self.tay(),
            Operation::TransferXA => self.txa(),
            Operation::TransferYA => self.tya(),
            Operation::TransferSX => self.tsx(),
            Operation::TransferXS => self.txs(),
            Operation::PushA => self.pha(),
            Operation::PushStatus => self.php(),
            Operation::PullA => self.pla(),
            Operation::PullStatus => self.plp(),
            Operation::IncrementX => self.inx(),
            Operation::IncrementY => self.iny(),
            Operation::DecrementX => self.dex(),
            Operation::DecrementY => self.dey(),
            Operation::ClearCarry => self.set_flag(Flag::Carry, false),
            Operation::SetCarry => self.set_flag(Flag::Carry, true),
            Operation::ClearDecimal => self.set_flag(Flag::Decimal, false),
            Operation::SetDecimal => self.set_flag(Flag::Decimal, true),
            Operation::ClearInterruptDisable => self.set_flag(Flag::InterruptDisable, false),
            Operation::SetInterruptDisable => self.set_flag(Flag::InterruptDisable, true),
            Operation::ClearOverflow => self.set_flag(Flag::Overflow, false),
            Operation::ReturnSubroutine => self.rts(),
            Operation::ReturnInterrupt => self.rti(),
            Operation::Break => self.brk(),
            Operation::NoOperation => {},
            _ => match operand {
                Operand::Address(address) => self.apply_at(operation, address),
                _ => {},
            },
        }
    }

    /// Lets an operation that needs an address work on `address`. Other
    /// operations do nothing here.
    pub fn apply_at(&mut self, operation: Operation, address: u16)
        ensures
            final(self)@ == old(self)@.apply_at(operation, address),
    {
        match operation {
            Operation::StoreA => self.sta(address),
            Operation::StoreX => self.stx(address),
            Operation::StoreY => self.sty(address),
            Operation::Increment => self.inc(address),
            Operation::Decrement => self.dec(address),
            Operation::Jump => self.jmp(address),
            Operation::JumpSubroutine => self.jsr(address),
            Operation::BranchCarryClear => self.branch(!self.flag(Flag::Carry), address),
            Operation::BranchCarrySet => self.branch(self.flag(Flag::Carry), address),
            Operation::BranchNotEqual => self.branch(!self.flag(Flag::Zero), address),
            Operation::BranchEqual => self.branch(self.flag(Flag::Zero), address),
            Operation::BranchPlus => self.branch(!self.flag(Flag::Negative), address),
            Operation::BranchMinus => self.branch(self.flag(Flag::Negative), address),
            Operation::BranchOverflowClear => self.branch(!self.flag(Flag::Overflow), address),
            Operation::BranchOverflowSet => self.branch(self.flag(Flag::Overflow), address),
            _ => {},
        }
    }

    /// Executes the instruction that `entry` describes, its opcode already
    /// fetched: finds the operand, moves the program counter past the
    /// operand bytes, and lets the operation work.
    pub fn execute(&mut self, entry: OpcodeEntry)
        ensures
            final(self)@ == old(self)@.execute(entry),
    {
        let resolution = resolve(
            &self.memory,
            self.program_counter,
            self.register_x,
            self.register_y,
            entry.mode,
        );
        self.program_counter = self.program_counter.wrapping_add(resolution.consumed as u16);
        self.apply(entry.operation, resolution.operand);
    }
}

} // verus!
