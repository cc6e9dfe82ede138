//! The mathematical model of the processor.
//!
//! A [`State`] holds what the machine holds: the registers, the status
//! byte, the halt latch and all of memory. The spec functions on it say
//! what each instruction does to such a state and how instructions are
//! fetched, decoded and executed one after the other. The executable
//! processor in [`crate::cpu`] is verified against them.
use vstd::prelude::*;
use crate::addressing::{spec_resolve, Operand};
use crate::alu::{
    spec_add_with_carry, spec_rotate_left, spec_rotate_right, spec_shift_left, spec_shift_right,
    spec_subtract_with_carry, Shifted, Sum,
};
use crate::bus::{high_byte, is_memory, loaded, low_byte, word, zeroed};
use crate::error::CpuError;
use crate::opcode::{spec_decode, OpcodeEntry, Operation};
use crate::status::{spec_is_negative, spec_is_set, spec_with_flag, spec_with_zero_negative, Flag};

verus! {

/// The page that holds the stack: the stack pointer is the low byte of an
/// address in it.
pub const STACK_PAGE: u16 = 0x0100;

/// The stack pointer after power-on or reset.
pub const STACK_RESET: u8 = 0xFD;

/// Where the dispatcher stands within one instruction.
#[derive(Debug, Clone, Copy, PartialEq, Eq, Structural)]
pub enum Phase {
    /// About to read the opcode at the program counter.
    Fetching,
    /// Has read `opcode` and is about to look it up.
    Decoding { opcode: u8 },
    /// Has found `entry` and is about to execute it.
    Executing { entry: OpcodeEntry },
    /// Has halted for good; only a reset or a load leaves this phase.
    Halted,
}

/// Everything that the processor holds between two instructions.
pub struct State {
    /// Address of the next byte to fetch.
    pub program_counter: u16,
    /// The accumulator.
    pub register_a: u8,
    /// Index register X.
    pub register_x: u8,
    /// Index register Y.
    pub register_y: u8,
    /// Low byte of the address of the next free stack slot.
    pub stack_pointer: u8,
    /// The eight status flags.
    pub status: u8,
    /// Set once the processor has halted; it then fetches no more.
    pub halted: bool,
    /// One byte for every address.
    pub memory: Seq<u8>,
}

impl State {
    /// Memory spans the whole address space.
    pub open spec fn wf(self) -> bool {
        is_memory(self.memory)
    }

    /// The state after power-on: every register and every byte of memory
    /// zero, the stack pointer at its reset value.
    pub open spec fn power_on() -> State {
        State {
            program_counter: 0,
            register_a: 0,
            register_x: 0,
            register_y: 0,
            stack_pointer: STACK_RESET,
            status: 0,
            halted: false,
            memory: zeroed(),
        }
    }

    /// Registers back at their power-on values, ready to fetch at
    /// `entry_point`; memory is kept.
    pub open spec fn reset(self, entry_point: u16) -> State {
        State { program_counter: entry_point, memory: self.memory, ..State::power_on() }
    }

    /// `program` copied to `address`, and the processor ready to fetch its
    /// first byte. The registers are kept.
    pub open spec fn load(self, program: Seq<u8>, address: u16) -> State {
        State {
            program_counter: address,
            halted: false,
            memory: loaded(self.memory, program, address),
            ..self
        }
    }

    /// Whether `flag` is set.
    pub open spec fn flag(self, flag: Flag) -> bool {
        spec_is_set(self.status, flag)
    }

    /// The state with `flag` set to `on`.
    pub open spec fn with_flag(self, flag: Flag, on: bool) -> State {
        State { status: spec_with_flag(self.status, flag, on), ..self }
    }

    /// The state with Zero and Negative taken from `result`.
    pub open spec fn with_zero_negative(self, result: u8) -> State {
        State { status: spec_with_zero_negative(self.status, result), ..self }
    }

    /// The byte at `address`.
    pub open spec fn read(self, address: u16) -> u8 {
        self.memory[address as int]
    }

    /// The state with `value` stored at `address`.
    pub open spec fn write(self, address: u16, value: u8) -> State {
        State { memory: self.memory.update(address as int, value), ..self }
    }

    /// The program counter moved on by `count` bytes.
    pub open spec fn advance(self, count: u8) -> State {
        State { program_counter: ((self.program_counter + count) % 0x1_0000) as u16, ..self }
    }

    /// The value that `operand` stands for. An instruction without operand
    /// reads zero.
    pub open spec fn value_of(self, operand: Operand) -> u8 {
        match operand {
            Operand::Implied => 0,
            Operand::Accumulator => self.register_a,
            Operand::Immediate(value) => value,
            Operand::Address(address) => self.read(address),
        }
    }

    /// The state with `value` stored where `operand` says: in the
    /// accumulator or in memory. Nothing can be stored in an immediate
    /// operand or in none.
    pub open spec fn with_operand(self, operand: Operand, value: u8) -> State {
        match operand {
            Operand::Accumulator => State { register_a: value, ..self },
            Operand::Address(address) => self.write(address, value),
            _ => self,
        }
    }

    /// LDA: `value` in the accumulator, Zero and Negative taken from it.
    pub open spec fn lda(self, value: u8) -> State {
        State { register_a: value, ..self }.with_zero_negative(value)
    }

    /// LDX: `value` in X, Zero and Negative taken from it.
    pub open spec fn ldx(self, value: u8) -> State {
        State { register_x: value, ..self }.with_zero_negative(value)
    }

    /// LDY: `value` in Y, Zero and Negative taken from it.
    pub open spec fn ldy(self, value: u8) -> State {
        State { register_y: value, ..self }.with_zero_negative(value)
    }

    /// STA: the accumulator stored at `address`.
    pub open spec fn sta(self, address: u16) -> State {
        self.write(address, self.register_a)
    }

    /// STX: X stored at `address`.
    pub open spec fn stx(self, address: u16) -> State {
        self.write(address, self.register_x)
    }

    /// STY: Y stored at `address`.
    pub open spec fn sty(self, address: u16) -> State {
        self.write(address, self.register_y)
    }

    /// TAX: the accumulator copied to X, Zero and Negative taken from it.
    pub open spec fn tax(self) -> State {
        State { register_x: self.register_a, ..self }.with_zero_negative(self.register_a)
    }

    /// TAY: the accumulator copied to Y, Zero and Negative taken from it.
    pub open spec fn tay(self) -> State {
        State { register_y: self.register_a, ..self }.with_zero_negative(self.register_a)
    }

    /// TXA: X copied to the accumulator, Zero and Negative taken from it.
    pub open spec fn txa(self) -> State {
        State { register_a: self.register_x, ..self }.with_zero_negative(self.register_x)
    }

    /// TYA: Y copied to the accumulator, Zero and Negative taken from it.
    pub open spec fn tya(self) -> State {
        State { register_a: self.register_y, ..self }.with_zero_negative(self.register_y)
    }

    /// TSX: the stack pointer copied to X, Zero and Negative taken from it.
    pub open spec fn tsx(self) -> State {
        State { register_x: self.stack_pointer, ..self }.with_zero_negative(self.stack_pointer)
    }

    /// The one transfer that leaves the flags alone.
    pub open spec fn txs(self) -> State {
        State { stack_pointer: self.register_x, ..self }
    }

    /// Address of the next free stack slot.
    pub open spec fn stack_address(self) -> u16 {
        (STACK_PAGE + self.stack_pointer) as u16
    }

    /// `value` stored in the free slot, and the stack pointer one lower,
    /// wrapping within the stack page.
    pub open spec fn push(self, value: u8) -> State {
        State {
            stack_pointer: ((self.stack_pointer - 1) % 0x100) as u8,
            ..self.write(self.stack_address(), value)
        }
    }

    /// The stack pointer one higher, wrapping within the stack page. The
    /// slot that it then names holds the pulled byte.
    pub open spec fn pop(self) -> State {
        State { stack_pointer: ((self.stack_pointer + 1) % 0x100) as u8, ..self }
    }

    /// The byte that a pull yields.
    pub open spec fn pulled(self) -> u8 {
        self.pop().read(self.pop().stack_address())
    }

    /// The word that two pulls yield, low byte first.
    pub open spec fn pulled_word(self) -> u16 {
        word(self.pulled(), self.pop().pulled())
    }

    /// PHA: the accumulator pushed.
    pub open spec fn pha(self) -> State {
        self.push(self.register_a)
    }

    /// PHP: the status byte pushed as it is.
    pub open spec fn php(self) -> State {
        self.push(self.status)
    }

    /// PLA: the accumulator pulled, Zero and Negative taken from it.
    pub open spec fn pla(self) -> State {
        State { register_a: self.pulled(), ..self.pop() }.with_zero_negative(self.pulled())
    }

    /// PLP: the status byte pulled as it is.
    pub open spec fn plp(self) -> State {
        State { status: self.pulled(), ..self.pop() }
    }

    /// AND: the accumulator keeps the bits that `value` has too.
    pub open spec fn and(self, value: u8) -> State {
        self.lda(self.register_a & value)
    }

    /// EOR: the accumulator has the bits flipped that `value` has.
    pub open spec fn eor(self, value: u8) -> State {
        self.lda(self.register_a ^ value)
    }

    /// ORA: the accumulator gains the bits that `value` has.
    pub open spec fn ora(self, value: u8) -> State {
        self.lda(self.register_a | value)
    }

    /// Zero says whether accumulator and operand share no bit; Overflow and
    /// Negative repeat bits 6 and 7 of the operand.
    pub open spec fn bit(self, value: u8) -> State {
        self.with_flag(Flag::Zero, self.register_a & value == 0).with_flag(
            Flag::Overflow,
            spec_is_set(value, Flag::Overflow),
        ).with_flag(Flag::Negative, spec_is_negative(value))
    }

    /// The accumulator and the flags after an addition or a subtraction.
    pub open spec fn with_sum(self, sum: Sum) -> State {
        State { register_a: sum.value, ..self }.with_flag(Flag::Carry, sum.carry).with_flag(
            Flag::Overflow,
            sum.overflow,
        ).with_zero_negative(sum.value)
    }

    /// ADC: `value` and the carry added to the accumulator.
    pub open spec fn adc(self, value: u8) -> State {
        self.with_sum(spec_add_with_carry(self.register_a, value, self.flag(Flag::Carry)))
    }

    /// SBC: `value` subtracted from the accumulator, and one more if the
    /// carry is clear.
    pub open spec fn sbc(self, value: u8) -> State {
        self.with_sum(spec_subtract_with_carry(self.register_a, value, self.flag(Flag::Carry)))
    }

    /// The flags after comparing `register` with `value`: Carry says that
    /// the register is not below the value, Zero that they are equal, and
    /// Negative repeats bit 7 of their difference.
    pub open spec fn compare(self, register: u8, value: u8) -> State {
        self.with_flag(Flag::Carry, register >= value).with_zero_negative(
            ((register - value) % 0x100) as u8,
        )
    }

    /// The accumulator compared with `value`.
    pub open spec fn cpa(self, value: u8) -> State {
        self.compare(self.register_a, value)
    }

    /// CPX: X compared with `value`.
    pub open spec fn cpx(self, value: u8) -> State {
        self.compare(self.register_x, value)
    }

    /// CPY: Y compared with `value`.
    pub open spec fn cpy(self, value: u8) -> State {
        self.compare(self.register_y, value)
    }

    /// INC: one added to the byte at `address`, `0xFF` wrapping to zero.
    pub open spec fn inc(self, address: u16) -> State {
        let value = ((self.read(address) + 1) % 0x100) as u8;
        self.write(address, value).with_zero_negative(value)
    }

    /// DEC: one subtracted from the byte at `address`, zero wrapping to
    /// `0xFF`.
    pub open spec fn dec(self, address: u16) -> State {
        let value = ((self.read(address) - 1) % 0x100) as u8;
        self.write(address, value).with_zero_negative(value)
    }

    /// INX: one added to X, `0xFF` wrapping to zero.
    pub open spec fn inx(self) -> State {
        self.ldx(((self.register_x + 1) % 0x100) as u8)
    }

    /// INY: one added to Y, `0xFF` wrapping to zero.
    pub open spec fn iny(self) -> State {
        self.ldy(((self.register_y + 1) % 0x100) as u8)
    }

    /// DEX: one subtracted from X, zero wrapping to `0xFF`.
    pub open spec fn dex(self) -> State {
        self.ldx(((self.register_x - 1) % 0x100) as u8)
    }

    /// DEY: one subtracted from Y, zero wrapping to `0xFF`.
    pub open spec fn dey(self) -> State {
        self.ldy(((self.register_y - 1) % 0x100) as u8)
    }

    /// The operand and the flags after a shift or a rotation.
    pub open spec fn with_shifted(self, operand: Operand, shifted: Shifted) -> State {
        self.with_operand(operand, shifted.value).with_flag(
            Flag::Carry,
            shifted.carry,
        ).with_zero_negative(shifted.value)
    }

    /// ASL: the operand shifted left by one bit.
    pub open spec fn asl(self, operand: Operand) -> State {
        self.with_shifted(operand, spec_shift_left(self.value_of(operand)))
    }

    /// LSR: the operand shifted right by one bit.
    pub open spec fn lsr(self, operand: Operand) -> State {
        self.with_shifted(operand, spec_shift_right(self.value_of(operand)))
    }

    /// ROL: the operand rotated left by one bit through Carry.
    pub open spec fn rol(self, operand: Operand) -> State {
        self.with_shifted(
            operand,
            spec_rotate_left(self.value_of(operand), self.flag(Flag::Carry)),
        )
    }

    /// ROR: the operand rotated right by one bit through Carry.
    pub open spec fn ror(self, operand: Operand) -> State {
        self.with_shifted(
            operand,
            spec_rotate_right(self.value_of(operand), self.flag(Flag::Carry)),
        )
    }

    /// JMP: the program counter at `address`.
    pub open spec fn jmp(self, address: u16) -> State {
        State { program_counter: address, ..self }
    }

    /// Pushes the address of the last byte of the call instruction, high
    /// byte first, and continues at `address`.
    pub open spec fn jsr(self, address: u16) -> State {
        let link = ((self.program_counter - 1) % 0x1_0000) as u16;
        self.push(high_byte(link)).push(low_byte(link)).jmp(address)
    }

    /// Pulls the address that a call pushed and continues one byte after it.
    pub open spec fn rts(self) -> State {
        self.pop().pop().jmp(((self.pulled_word() + 1) % 0x1_0000) as u16)
    }

    /// Pulls the status byte, then an address, and continues at that address.
    pub open spec fn rti(self) -> State {
        self.plp().pop().pop().jmp(self.pop().pulled_word())
    }

    /// Continues at `target` if the branch is taken, and at the next
    /// instruction otherwise.
    pub open spec fn branch(self, taken: bool, target: u16) -> State {
        if taken {
            self.jmp(target)
        } else {
            self
        }
    }

    /// BRK: the processor halted. Nothing is pushed and no vector is read.
    pub open spec fn brk(self) -> State {
        State { halted: true, ..self }
    }

    /// The state after `operation` has worked on `operand`. An operation
    /// that is handed an operand which it cannot take does nothing; the
    /// opcode table holds no such pair.
    pub open spec fn apply(self, operation: Operation, operand: Operand) -> State {
        match operation {
            Operation::LoadA => self.lda(self.value_of(operand)),
            Operation::LoadX => self.ldx(self.value_of(operand)),
            Operation::LoadY => self.ldy(self.value_of(operand)),
            Operation::And => self.and(self.value_of(operand)),
            Operation::ExclusiveOr => self.eor(self.value_of(operand)),
            Operation::Or => self.ora(self.value_of(operand)),
            Operation::BitTest => self.bit(self.value_of(operand)),
            Operation::AddWithCarry => self.adc(self.value_of(operand)),
            Operation::SubtractWithCarry => self.sbc(self.value_of(operand)),
            Operation::CompareA => self.cpa(self.value_of(operand)),
            Operation::CompareX => self.cpx(self.value_of(operand)),
            Operation::CompareY => self.cpy(self.value_of(operand)),
            Operation::ShiftLeft => self.asl(operand),
            Operation::ShiftRight => self.lsr(operand),
            Operation::RotateLeft => self.rol(operand),
            Operation::RotateRight => self.ror(operand),
            Operation::TransferAX => self.tax(),
            Operation::TransferAY => self.tay(),
            Operation::TransferXA => self.txa(),
            Operation::TransferYA => self.tya(),
            Operation::TransferSX => self.tsx(),
            Operation::TransferXS => self.txs(),
            Operation::PushA => self.pha(),
            Operation::PushStatus => self.php(),
            Operation::PullA => self.pla(),
            Operation::PullStatus => self.plp(),
            Operation::IncrementX => self.inx(),
            Operation::IncrementY => self.iny(),
            Operation::DecrementX => self.dex(),
            Operation::DecrementY => self.dey(),
            Operation::ClearCarry => self.with_flag(Flag::Carry, false),
            Operation::SetCarry => self.with_flag(Flag::Carry, true),
            Operation::ClearDecimal => self.with_flag(Flag::Decimal, false),
            Operation::SetDecimal => self.with_flag(Flag::Decimal, true),
            Operation::ClearInterruptDisable => self.with_flag(Flag::InterruptDisable, false),
            Operation::SetInterruptDisable => self.with_flag(Flag::InterruptDisable, true),
            Operation::ClearOverflow => self.with_flag(Flag::Overflow, false),
            Operation::ReturnSubroutine => self.rts(),
            Operation::ReturnInterrupt => self.rti(),
            Operation::Break => self.brk(),
            Operation::NoOperation => self,
            _ => match operand {
                Operand::Address(address) => self.apply_at(operation, address),
                _ => self,
            },
        }
    }

    /// The state after an operation that needs an address has worked on
    /// `address`. Other operations do nothing here.
    pub open spec fn apply_at(self, operation: Operation, address: u16) -> State {
        match operation {
            Operation::StoreA => self.sta(address),
            Operation::StoreX => self.stx(address),
            Operation::StoreY => self.sty(address),
            Operation::Increment => self.inc(address),
            Operation::Decrement => self.dec(address),
            Operation::Jump => self.jmp(address),
            Operation::JumpSubroutine => self.jsr(address),
            Operation::BranchCarryClear => self.branch(!self.flag(Flag::Carry), address),
            Operation::BranchCarrySet => self.branch(self.flag(Flag::Carry), address),
            Operation::BranchNotEqual => self.branch(!self.flag(Flag::Zero), address),
            Operation::BranchEqual => self.branch(self.flag(Flag::Zero), address),
            Operation::BranchPlus => self.branch(!self.flag(Flag::Negative), address),
            Operation::BranchMinus => self.branch(self.flag(Flag::Negative), address),
            Operation::BranchOverflowClear => self.branch(!self.flag(Flag::Overflow), address),
            Operation::BranchOverflowSet => self.branch(self.flag(Flag::Overflow), address),
            _ => self,
        }
    }

    /// The operand of an instruction in the mode of `entry` whose operand
    /// bytes start at the program counter.
    pub open spec fn operand(self, entry: OpcodeEntry) -> Operand {
        spec_resolve(
            self.memory,
            self.program_counter,
            self.register_x,
            self.register_y,
            entry.mode,
        ).operand
    }

    /// The state after the instruction that `entry` describes, its opcode
    /// already fetched: the operand is found, the program counter moves past
    /// the operand bytes, and then the operation works.
    pub open spec fn execute(self, entry: OpcodeEntry) -> State {
        self.advance(entry.mode.spec_operand_bytes()).apply(entry.operation, self.operand(entry))
    }

    /// The opcode that the next step fetches.
    pub open spec fn opcode(self) -> u8 {
        self.read(self.program_counter)
    }

    /// The failure of the next step, if it fails: the processor runs and
    /// the byte at the program counter is no opcode.
    pub open spec fn fault(self) -> Option<CpuError> {
        if !self.halted && spec_decode(self.opcode()) is None {
            Some(CpuError::IllegalOpcode { opcode: self.opcode(), address: self.program_counter })
        } else {
            None
        }
    }

    /// The phase in which the processor rests between two steps.
    pub open spec fn phase(self) -> Phase {
        if self.halted {
            Phase::Halted
        } else {
            Phase::Fetching
        }
    }

    /// One transition of the dispatcher. Fetching reads the opcode and moves
    /// the program counter past it. Decoding looks the opcode up; an
    /// opcode that is not in the table halts the processor. Executing lets
    /// the instruction work and goes back to fetching, unless the
    /// instruction halted the processor. Halted stays halted.
    pub open spec fn transition(self, phase: Phase) -> (State, Phase) {
        match phase {
            Phase::Fetching => (self.advance(1), Phase::Decoding { opcode: self.opcode() }),
            Phase::Decoding { opcode } => match spec_decode(opcode) {
                Some(entry) => (self, Phase::Executing { entry }),
                None => (self.brk(), Phase::Halted),
            },
            Phase::Executing { entry } => (self.execute(entry), self.execute(entry).phase()),
            Phase::Halted => (self, Phase::Halted),
        }
    }

    /// The state after one step. A halted processor stays as it is. A
    /// running one fetches the opcode at the program counter and moves past
    /// it; if the opcode is in the table the instruction is executed, and if
    /// not the processor halts.
    pub open spec fn step(self) -> State {
        if self.halted {
            self
        } else {
            match spec_decode(self.opcode()) {
                Some(entry) => self.advance(1).execute(entry),
                None => self.advance(1).brk(),
            }
        }
    }

    /// The state after running until the processor halts, but for `budget`
    /// steps at most.
    pub open spec fn run(self, budget: nat) -> State
        decreases budget,
    {
        if budget == 0 || self.halted {
            self
        } else {
            self.step().run((budget - 1) as nat)
        }
    }

    /// The failure that ends a run of at most `budget` steps, if one does.
    pub open spec fn run_fault(self, budget: nat) -> Option<CpuError>
        decreases budget,
    {
        if budget == 0 || self.halted {
            None
        } else if self.fault() is Some {
            self.fault()
        } else {
            self.step().run_fault((budget - 1) as nat)
        }
    }
}

} // verus!
