//! The instruction set: which byte stands for which operation in which
//! addressing mode.
//!
//! The table holds the 151 documented opcodes. Every other byte is illegal:
//! the undocumented opcodes of the hardware are not emulated.
use vstd::prelude::*;
use crate::addressing::{operand_at, AddressingMode, Operand};

verus! {

/// What an instruction does, apart from how it finds its operand.
#[derive(Debug, Clone, Copy, PartialEq, Eq, Structural)]
pub enum Operation {
    /// ADC: add memory and the carry to the accumulator.
    AddWithCarry,
    /// AND: bitwise and of memory with the accumulator.
    And,
    /// ASL: shift the operand left by one bit.
    ShiftLeft,
    /// BCC: branch if Carry is clear.
    BranchCarryClear,
    /// BCS: branch if Carry is set.
    BranchCarrySet,
    /// BEQ: branch if Zero is set.
    BranchEqual,
    /// BIT: test bits of memory against the accumulator.
    BitTest,
    /// BMI: branch if Negative is set.
    BranchMinus,
    /// BNE: branch if Zero is clear.
    BranchNotEqual,
    /// BPL: branch if Negative is clear.
    BranchPlus,
    /// BRK: halt the processor.
    Break,
    /// BVC: branch if Overflow is clear.
    BranchOverflowClear,
    /// BVS: branch if Overflow is set.
    BranchOverflowSet,
    /// CLC: clear Carry.
    ClearCarry,
    /// CLD: clear Decimal.
    ClearDecimal,
    /// CLI: clear InterruptDisable.
    ClearInterruptDisable,
    /// CLV: clear Overflow.
    ClearOverflow,
    /// Compare memory with the accumulator.
    CompareA,
    /// CPX: compare memory with X.
    CompareX,
    /// CPY: compare memory with Y.
    CompareY,
    /// DEC: subtract one from memory.
    Decrement,
    /// DEX: subtract one from X.
    DecrementX,
    /// DEY: subtract one from Y.
    DecrementY,
    /// EOR: bitwise exclusive or of memory with the accumulator.
    ExclusiveOr,
    /// INC: add one to memory.
    Increment,
    /// INX: add one to X.
    IncrementX,
    /// INY: add one to Y.
    IncrementY,
    /// JMP: continue at another address.
    Jump,
    /// JSR: call a subroutine.
    JumpSubroutine,
    /// LDA: load the accumulator.
    LoadA,
    /// LDX: load X.
    LoadX,
    /// LDY: load Y.
    LoadY,
    /// LSR: shift the operand right by one bit.
    ShiftRight,
    /// NOP: do nothing.
    NoOperation,
    /// ORA: bitwise or of memory with the accumulator.
    Or,
    /// PHA: push the accumulator.
    PushA,
    /// PHP: push the status register.
    PushStatus,
    /// PLA: pull the accumulator.
    PullA,
    /// PLP: pull the status register.
    PullStatus,
    /// ROL: rotate the operand left through Carry.
    RotateLeft,
    /// ROR: rotate the operand right through Carry.
    RotateRight,
    /// RTI: return from an interrupt handler.
    ReturnInterrupt,
    /// RTS: return from a subroutine.
    ReturnSubroutine,
    /// SBC: subtract memory and the borrow from the accumulator.
    SubtractWithCarry,
    /// SEC: set Carry.
    SetCarry,
    /// SED: set Decimal.
    SetDecimal,
    /// SEI: set InterruptDisable.
    SetInterruptDisable,
    /// STA: store the accumulator.
    StoreA,
    /// STX: store X.
    StoreX,
    /// STY: store Y.
    StoreY,
    /// TAX: copy the accumulator to X.
    TransferAX,
    /// TAY: copy the accumulator to Y.
    TransferAY,
    /// TSX: copy the stack pointer to X.
    TransferSX,
    /// TXA: copy X to the accumulator.
    TransferXA,
    /// TXS: copy X to the stack pointer.
    TransferXS,
    /// TYA: copy Y to the accumulator.
    TransferYA,
}

/// One line of the opcode table.
#[derive(Debug, Clone, Copy, PartialEq, Eq, Structural)]
pub struct OpcodeEntry {
    /// What the instruction does.
    pub operation: Operation,
    /// How it finds its operand.
    pub mode: AddressingMode,
    /// Bytes that the instruction takes, the opcode included.
    pub length: u8,
    /// Clock cycles that the instruction takes at least.
    pub cycles: u8,
}

/// The table entry for `operation` in `mode`: the length follows from the
/// mode.
pub open spec fn spec_entry(operation: Operation, mode: AddressingMode, cycles: u8) -> OpcodeEntry {
    OpcodeEntry { operation, mode, length: (1 + mode.spec_operand_bytes()) as u8, cycles }
}

/// The table entry for `operation` in `mode`: the length follows from the
/// mode.
#[verifier::when_used_as_spec(spec_entry)]
pub fn entry(operation: Operation, mode: AddressingMode, cycles: u8) -> (line: OpcodeEntry)
    ensures
        line == spec_entry(operation, mode, cycles),
{
    OpcodeEntry { operation, mode, length: 1 + mode.operand_bytes(), cycles }
}

/// The opcode table as a function: the entry that `opcode` stands for, or
/// `None` where it stands for none.
pub open spec fn spec_decode(opcode: u8) -> Option<OpcodeEntry> {
    match opcode {
        0x00 => Some(entry(Operation::Break, AddressingMode::Implicit, 7)),
        0x01 => Some(entry(Operation::Or, AddressingMode::IndirectX, 6)),
        0x05 => Some(entry(Operation::Or, AddressingMode::ZeroPage, 3)),
        0x06 => Some(entry(Operation::ShiftLeft, AddressingMode::ZeroPage, 5)),
        0x08 => Some(entry(Operation::PushStatus, AddressingMode::Implicit, 3)),
        0x09 => Some(entry(Operation::Or, AddressingMode::Immediate, 2)),
        0x0A => Some(entry(Operation::ShiftLeft, AddressingMode::Accumulator, 2)),
        0x0D => Some(entry(Operation::Or, AddressingMode::Absolute, 4)),
        0x0E => Some(entry(Operation::ShiftLeft, AddressingMode::Absolute, 6)),
        0x10 => Some(entry(Operation::BranchPlus, AddressingMode::Relative, 2)),
        0x11 => Some(entry(Operation::Or, AddressingMode::IndirectY, 5)),
        0x15 => Some(entry(Operation::Or, AddressingMode::ZeroPageX, 4)),
        0x16 => Some(entry(Operation::ShiftLeft, AddressingMode::ZeroPageX, 6)),
        0x18 => Some(entry(Operation::ClearCarry, AddressingMode::Implicit, 2)),
        0x19 => Some(entry(Operation::Or, AddressingMode::AbsoluteY, 4)),
        0x1D => Some(entry(Operation::Or, AddressingMode::AbsoluteX, 4)),
        0x1E => Some(entry(Operation::ShiftLeft, AddressingMode::AbsoluteX, 7)),
        0x20 => Some(entry(Operation::JumpSubroutine, AddressingMode::Absolute, 6)),
        0x21 => Some(entry(Operation::And, AddressingMode::IndirectX, 6)),
        0x24 => Some(entry(Operation::BitTest, AddressingMode::ZeroPage, 3)),
        0x25 => Some(entry(Operation::And, AddressingMode::ZeroPage, 3)),
        0x26 => Some(entry(Operation::RotateLeft, AddressingMode::ZeroPage, 5)),
        0x28 => Some(entry(Operation::PullStatus, AddressingMode::Implicit, 4)),
        0x29 => Some(entry(Operation::And, AddressingMode::Immediate, 2)),
        0x2A => Some(entry(Operation::RotateLeft, AddressingMode::Accumulator, 2)),
        0x2C => Some(entry(Operation::BitTest, AddressingMode::Absolute, 4)),
        0x2D => Some(entry(Operation::And, AddressingMode::Absolute, 4)),
        0x2E => Some(entry(Operation::RotateLeft, AddressingMode::Absolute, 6)),
        0x30 => Some(entry(Operation::BranchMinus, AddressingMode::Relative, 2)),
        0x31 => Some(entry(Operation::And, AddressingMode::IndirectY, 5)),
        0x35 => Some(entry(Operation::And, AddressingMode::ZeroPageX, 4)),
        0x36 => Some(entry(Operation::RotateLeft, AddressingMode::ZeroPageX, 6)),
        0x38 => Some(entry(Operation::SetCarry, AddressingMode::Implicit, 2)),
        0x39 => Some(entry(Operation::And, AddressingMode::AbsoluteY, 4)),
        0x3D => Some(entry(Operation::And, AddressingMode::AbsoluteX, 4)),
        0x3E => Some(entry(Operation::RotateLeft, AddressingMode::AbsoluteX, 7)),
        0x40 => Some(entry(Operation::ReturnInterrupt, AddressingMode::Implicit, 6)),
        0x41 => Some(entry(Operation::ExclusiveOr, AddressingMode::IndirectX, 6)),
        0x45 => Some(entry(Operation::ExclusiveOr, AddressingMode::ZeroPage, 3)),
        0x46 => Some(entry(Operation::ShiftRight, AddressingMode::ZeroPage, 5)),
        0x48 => Some(entry(Operation::PushA, AddressingMode::Implicit, 3)),
        0x49 => Some(entry(Operation::ExclusiveOr, AddressingMode::Immediate, 2)),
        0x4A => Some(entry(Operation::ShiftRight, AddressingMode::Accumulator, 2)),
        0x4C => Some(entry(Operation::Jump, AddressingMode::Absolute, 3)),
        0x4D => Some(entry(Operation::ExclusiveOr, AddressingMode::Absolute, 4)),
        0x4E => Some(entry(Operation::ShiftRight, AddressingMode::Absolute, 6)),
        0x50 => Some(entry(Operation::BranchOverflowClear, AddressingMode::Relative, 2)),
        0x51 => Some(entry(Operation::ExclusiveOr, AddressingMode::IndirectY, 5)),
        0x55 => Some(entry(Operation::ExclusiveOr, AddressingMode::ZeroPageX, 4)),
        0x56 => Some(entry(Operation::ShiftRight, AddressingMode::ZeroPageX, 6)),
        0x58 => Some(entry(Operation::ClearInterruptDisable, AddressingMode::Implicit, 2)),
        0x59 => Some(entry(Operation::ExclusiveOr, AddressingMode::AbsoluteY, 4)),
        0x5D => Some(entry(Operation::ExclusiveOr, AddressingMode::AbsoluteX, 4)),
        0x5E => Some(entry(Operation::ShiftRight, AddressingMode::AbsoluteX, 7)),
        0x60 => Some(entry(Operation::ReturnSubroutine, AddressingMode::Implicit, 6)),
        0x61 => Some(entry(Operation::AddWithCarry, AddressingMode::IndirectX, 6)),
        0x65 => Some(entry(Operation::AddWithCarry, AddressingMode::ZeroPage, 3)),
        0x66 => Some(entry(Operation::RotateRight, AddressingMode::ZeroPage, 5)),
        0x68 => Some(entry(Operation::PullA, AddressingMode::Implicit, 4)),
        0x69 => Some(entry(Operation::AddWithCarry, AddressingMode::Immediate, 2)),
        0x6A => Some(entry(Operation::RotateRight, AddressingMode::Accumulator, 2)),
        0x6C => Some(entry(Operation::Jump, AddressingMode::Indirect, 5)),
        0x6D => Some(entry(Operation::AddWithCarry, AddressingMode::Absolute, 4)),
        0x6E => Some(entry(Operation::RotateRight, AddressingMode::Absolute, 6)),
        0x70 => Some(entry(Operation::BranchOverflowSet, AddressingMode::Relative, 2)),
        0x71 => Some(entry(Operation::AddWithCarry, AddressingMode::IndirectY, 5)),
        0x75 => Some(entry(Operation::AddWithCarry, AddressingMode::ZeroPageX, 4)),
        0x76 => Some(entry(Operation::RotateRight, AddressingMode::ZeroPageX, 6)),
        0x78 => Some(entry(Operation::SetInterruptDisable, AddressingMode::Implicit, 2)),
        0x79 => Some(entry(Operation::AddWithCarry, AddressingMode::AbsoluteY, 4)),
        0x7D => Some(entry(Operation::AddWithCarry, AddressingMode::AbsoluteX, 4)),
        0x7E => Some(entry(Operation::RotateRight, AddressingMode::AbsoluteX, 7)),
        0x81 => Some(entry(Operation::StoreA, AddressingMode::IndirectX, 6)),
        0x84 => Some(entry(Operation::StoreY, AddressingMode::ZeroPage, 3)),
        0x85 => Some(entry(Operation::StoreA, AddressingMode::ZeroPage, 3)),
        0x86 => Some(entry(Operation::StoreX, AddressingMode::ZeroPage, 3)),
        0x88 => Some(entry(Operation::DecrementY, AddressingMode::Implicit, 2)),
        0x8A => Some(entry(Operation::TransferXA, AddressingMode::Implicit, 2)),
        0x8C => Some(entry(Operation::StoreY, AddressingMode::Absolute, 4)),
        0x8D => Some(entry(Operation::StoreA, AddressingMode::Absolute, 4)),
        0x8E => Some(entry(Operation::StoreX, AddressingMode::Absolute, 4)),
        0x90 => Some(entry(Operation::BranchCarryClear, AddressingMode::Relative, 2)),
        0x91 => Some(entry(Operation::StoreA, AddressingMode::IndirectY, 6)),
        0x94 => Some(entry(Operation::StoreY, AddressingMode::ZeroPageX, 4)),
        0x95 => Some(entry(Operation::StoreA, AddressingMode::ZeroPageX, 4)),
        0x96 => Some(entry(Operation::StoreX, AddressingMode::ZeroPageY, 4)),
        0x98 => Some(entry(Operation::TransferYA, AddressingMode::Implicit, 2)),
        0x99 => Some(entry(Operation::StoreA, AddressingMode::AbsoluteY, 5)),
        0x9A => Some(entry(Operation::TransferXS, AddressingMode::Implicit, 2)),
        0x9D => Some(entry(Operation::StoreA, AddressingMode::AbsoluteX, 5)),
        0xA0 => Some(entry(Operation::LoadY, AddressingMode::Immediate, 2)),
        0xA1 => Some(entry(Operation::LoadA, AddressingMode::IndirectX, 6)),
        0xA2 => Some(entry(Operation::LoadX, AddressingMode::Immediate, 2)),
        0xA4 => Some(entry(Operation::LoadY, AddressingMode::ZeroPage, 3)),
        0xA5 => Some(entry(Operation::LoadA, AddressingMode::ZeroPage, 3)),
        0xA6 => Some(entry(Operation::LoadX, AddressingMode::ZeroPage, 3)),
        0xA8 => Some(entry(Operation::TransferAY, AddressingMode::Implicit, 2)),
        0xA9 => Some(entry(Operation::LoadA, AddressingMode::Immediate, 2)),
        0xAA => Some(entry(Operation::TransferAX, AddressingMode::Implicit, 2)),
        0xAC => Some(entry(Operation::LoadY, AddressingMode::Absolute, 4)),
        0xAD => Some(entry(Operation::LoadA, AddressingMode::Absolute, 4)),
        0xAE => Some(entry(Operation::LoadX, AddressingMode::Absolute, 4)),
        0xB0 => Some(entry(Operation::BranchCarrySet, AddressingMode::Relative, 2)),
        0xB1 => Some(entry(Operation::LoadA, AddressingMode::IndirectY, 5)),
        0xB4 => Some(entry(Operation::LoadY, AddressingMode::ZeroPageX, 4)),
        0xB5 => Some(entry(Operation::LoadA, AddressingMode::ZeroPageX, 4)),
        0xB6 => Some(entry(Operation::LoadX, AddressingMode::ZeroPageY, 4)),
        0xB8 => Some(entry(Operation::ClearOverflow, AddressingMode::Implicit, 2)),
        0xB9 => Some(entry(Operation::LoadA, AddressingMode::AbsoluteY, 4)),
        0xBA => Some(entry(Operation::TransferSX, AddressingMode::Implicit, 2)),
        0xBC => Some(entry(Operation::LoadY, AddressingMode::AbsoluteX, 4)),
        0xBD => Some(entry(Operation::LoadA, AddressingMode::AbsoluteX, 4)),
        0xBE => Some(entry(Operation::LoadX, AddressingMode::AbsoluteY, 4)),
        0xC0 => Some(entry(Operation::CompareY, AddressingMode::Immediate, 2)),
        0xC1 => Some(entry(Operation::CompareA, AddressingMode::IndirectX, 6)),
        0xC4 => Some(entry(Operation::CompareY, AddressingMode::ZeroPage, 3)),
        0xC5 => Some(entry(Operation::CompareA, AddressingMode::ZeroPage, 3)),
        0xC6 => Some(entry(Operation::Decrement, AddressingMode::ZeroPage, 5)),
        0xC8 => Some(entry(Operation::IncrementY, AddressingMode::Implicit, 2)),
        0xC9 => Some(entry(Operation::CompareA, AddressingMode::Immediate, 2)),
        0xCA => Some(entry(Operation::DecrementX, AddressingMode::Implicit, 2)),
        0xCC => Some(entry(Operation::CompareY, AddressingMode::Absolute, 4)),
        0xCD => Some(entry(Operation::CompareA, AddressingMode::Absolute, 4)),
        0xCE => Some(entry(Operation::Decrement, AddressingMode::Absolute, 6)),
        0xD0 => Some(entry(Operation::BranchNotEqual, AddressingMode::Relative, 2)),
        0xD1 => Some(entry(Operation::CompareA, AddressingMode::IndirectY, 5)),
        0xD5 => Some(entry(Operation::CompareA, AddressingMode::ZeroPageX, 4)),
        0xD6 => Some(entry(Operation::Decrement, AddressingMode::ZeroPageX, 6)),
        0xD8 => Some(entry(Operation::ClearDecimal, AddressingMode::Implicit, 2)),
        0xD9 => Some(entry(Operation::CompareA, AddressingMode::AbsoluteY, 4)),
        0xDD => Some(entry(Operation::CompareA, AddressingMode::AbsoluteX, 4)),
        0xDE => Some(entry(Operation::Decrement, AddressingMode::AbsoluteX, 7)),
        0xE0 => Some(entry(Operation::CompareX, AddressingMode::Immediate, 2)),
        0xE1 => Some(entry(Operation::SubtractWithCarry, AddressingMode::IndirectX, 6)),
        0xE4 => Some(entry(Operation::CompareX, AddressingMode::ZeroPage, 3)),
        0xE5 => Some(entry(Operation::SubtractWithCarry, AddressingMode::ZeroPage, 3)),
        0xE6 => Some(entry(Operation::Increment, AddressingMode::ZeroPage, 5)),
        0xE8 => Some(entry(Operation::IncrementX, AddressingMode::Implicit, 2)),
        0xE9 => Some(entry(Operation::SubtractWithCarry, AddressingMode::Immediate, 2)),
        0xEA => Some(entry(Operation::NoOperation, AddressingMode::Implicit, 2)),
        0xEC => Some(entry(Operation::CompareX, AddressingMode::Absolute, 4)),
        0xED => Some(entry(Operation::SubtractWithCarry, AddressingMode::Absolute, 4)),
        0xEE => Some(entry(Operation::Increment, AddressingMode::Absolute, 6)),
        0xF0 => Some(entry(Operation::BranchEqual, AddressingMode::Relative, 2)),
        0xF1 => Some(entry(Operation::SubtractWithCarry, AddressingMode::IndirectY, 5)),
        0xF5 => Some(entry(Operation::SubtractWithCarry, AddressingMode::ZeroPageX, 4)),
        0xF6 => Some(entry(Operation::Increment, AddressingMode::ZeroPageX, 6)),
        0xF8 => Some(entry(Operation::SetDecimal, AddressingMode::Implicit, 2)),
        0xF9 => Some(entry(Operation::SubtractWithCarry, AddressingMode::AbsoluteY, 4)),
        0xFD => Some(entry(Operation::SubtractWithCarry, AddressingMode::AbsoluteX, 4)),
        0xFE => Some(entry(Operation::Increment, AddressingMode::AbsoluteX, 7)),
        _ => None,
    }
}

/// Looks `opcode` up in the opcode table.
#[verifier::when_used_as_spec(spec_decode)]
pub fn decode(opcode: u8) -> (found: Option<OpcodeEntry>)
    ensures
        found == spec_decode(opcode),
{
    match opcode {
        0x00 => Some(entry(Operation::Break, AddressingMode::Implicit, 7)),
        0x01 => Some(entry(Operation::Or, AddressingMode::IndirectX, 6)),
        0x05 => Some(entry(Operation::Or, AddressingMode::ZeroPage, 3)),
        0x06 => Some(entry(Operation::ShiftLeft, AddressingMode::ZeroPage, 5)),
        0x08 => Some(entry(Operation::PushStatus, AddressingMode::Implicit, 3)),
        0x09 => Some(entry(Operation::Or, AddressingMode::Immediate, 2)),
        0x0A => Some(entry(Operation::ShiftLeft, AddressingMode::Accumulator, 2)),
        0x0D => Some(entry(Operation::Or, AddressingMode::Absolute, 4)),
        0x0E => Some(entry(Operation::ShiftLeft, AddressingMode::Absolute, 6)),
        0x10 => Some(entry(Operation::BranchPlus, AddressingMode::Relative, 2)),
        0x11 => Some(entry(Operation::Or, AddressingMode::IndirectY, 5)),
        0x15 => Some(entry(Operation::Or, AddressingMode::ZeroPageX, 4)),
        0x16 => Some(entry(Operation::ShiftLeft, AddressingMode::ZeroPageX, 6)),
        0x18 => Some(entry(Operation::ClearCarry, AddressingMode::Implicit, 2)),
        0x19 => Some(entry(Operation::Or, AddressingMode::AbsoluteY, 4)),
        0x1D => Some(entry(Operation::Or, AddressingMode::AbsoluteX, 4)),
        0x1E => Some(entry(Operation::ShiftLeft, AddressingMode::AbsoluteX, 7)),
        0x20 => Some(entry(Operation::JumpSubroutine, AddressingMode::Absolute, 6)),
        0x21 => Some(entry(Operation::And, AddressingMode::IndirectX, 6)),
        0x24 => Some(entry(Operation::BitTest, AddressingMode::ZeroPage, 3)),
        0x25 => Some(entry(Operation::And, AddressingMode::ZeroPage, 3)),
        0x26 => Some(entry(Operation::RotateLeft, AddressingMode::ZeroPage, 5)),
        0x28 => Some(entry(Operation::PullStatus, AddressingMode::Implicit, 4)),
        0x29 => Some(entry(Operation::And, AddressingMode::Immediate, 2)),
        0x2A => Some(entry(Operation::RotateLeft, AddressingMode::Accumulator, 2)),
        0x2C => Some(entry(Operation::BitTest, AddressingMode::Absolute, 4)),
        0x2D => Some(entry(Operation::And, AddressingMode::Absolute, 4)),
        0x2E => Some(entry(Operation::RotateLeft, AddressingMode::Absolute, 6)),
        0x30 => Some(entry(Operation::BranchMinus, AddressingMode::Relative, 2)),
        0x31 => Some(entry(Operation::And, AddressingMode::IndirectY, 5)),
        0x35 => Some(entry(Operation::And, AddressingMode::ZeroPageX, 4)),
        0x36 => Some(entry(Operation::RotateLeft, AddressingMode::ZeroPageX, 6)),
        0x38 => Some(entry(Operation::SetCarry, AddressingMode::Implicit, 2)),
        0x39 => Some(entry(Operation::And, AddressingMode::AbsoluteY, 4)),
        0x3D => Some(entry(Operation::And, AddressingMode::AbsoluteX, 4)),
        0x3E => Some(entry(Operation::RotateLeft, AddressingMode::AbsoluteX, 7)),
        0x40 => Some(entry(Operation::ReturnInterrupt, AddressingMode::Implicit, 6)),
        0x41 => Some(entry(Operation::ExclusiveOr, AddressingMode::IndirectX, 6)),
        0x45 => Some(entry(Operation::ExclusiveOr, AddressingMode::ZeroPage, 3)),
        0x46 => Some(entry(Operation::ShiftRight, AddressingMode::ZeroPage, 5)),
        0x48 => Some(entry(Operation::PushA, AddressingMode::Implicit, 3)),
        0x49 => Some(entry(Operation::ExclusiveOr, AddressingMode::Immediate, 2)),
        0x4A => Some(entry(Operation::ShiftRight, AddressingMode::Accumulator, 2)),
        0x4C => Some(entry(Operation::Jump, AddressingMode::Absolute, 3)),
        0x4D => Some(entry(Operation::ExclusiveOr, AddressingMode::Absolute, 4)),
        0x4E => Some(entry(Operation::ShiftRight, AddressingMode::Absolute, 6)),
        0x50 => Some(entry(Operation::BranchOverflowClear, AddressingMode::Relative, 2)),
        0x51 => Some(entry(Operation::ExclusiveOr, AddressingMode::IndirectY, 5)),
        0x55 => Some(entry(Operation::ExclusiveOr, AddressingMode::ZeroPageX, 4)),
        0x56 => Some(entry(Operation::ShiftRight, AddressingMode::ZeroPageX, 6)),
        0x58 => Some(entry(Operation::ClearInterruptDisable, AddressingMode::Implicit, 2)),
        0x59 => Some(entry(Operation::ExclusiveOr, AddressingMode::AbsoluteY, 4)),
        0x5D => Some(entry(Operation::ExclusiveOr, AddressingMode::AbsoluteX, 4)),
        0x5E => Some(entry(Operation::ShiftRight, AddressingMode::AbsoluteX, 7)),
        0x60 => Some(entry(Operation::ReturnSubroutine, AddressingMode::Implicit, 6)),
        0x61 => Some(entry(Operation::AddWithCarry, AddressingMode::IndirectX, 6)),
        0x65 => Some(entry(Operation::AddWithCarry, AddressingMode::ZeroPage, 3)),
        0x66 => Some(entry(Operation::RotateRight, AddressingMode::ZeroPage, 5)),
        0x68 => Some(entry(Operation::PullA, AddressingMode::Implicit, 4)),
        0x69 => Some(entry(Operation::AddWithCarry, AddressingMode::Immediate, 2)),
        0x6A => Some(entry(Operation::RotateRight, AddressingMode::Accumulator, 2)),
        0x6C => Some(entry(Operation::Jump, AddressingMode::Indirect, 5)),
        0x6D => Some(entry(Operation::AddWithCarry, AddressingMode::Absolute, 4)),
        0x6E => Some(entry(Operation::RotateRight, AddressingMode::Absolute, 6)),
        0x70 => Some(entry(Operation::BranchOverflowSet, AddressingMode::Relative, 2)),
        0x71 => Some(entry(Operation::AddWithCarry, AddressingMode::IndirectY, 5)),
        0x75 => Some(entry(Operation::AddWithCarry, AddressingMode::ZeroPageX, 4)),
        0x76 => Some(entry(Operation::RotateRight, AddressingMode::ZeroPageX, 6)),
        0x78 => Some(entry(Operation::SetInterruptDisable, AddressingMode::Implicit, 2)),
        0x79 => Some(entry(Operation::AddWithCarry, AddressingMode::AbsoluteY, 4)),
        0x7D => Some(entry(Operation::AddWithCarry, AddressingMode::AbsoluteX, 4)),
        0x7E => Some(entry(Operation::RotateRight, AddressingMode::AbsoluteX, 7)),
        0x81 => Some(entry(Operation::StoreA, AddressingMode::IndirectX, 6)),
        0x84 => Some(entry(Operation::StoreY, AddressingMode::ZeroPage, 3)),
        0x85 => Some(entry(Operation::StoreA, AddressingMode::ZeroPage, 3)),
        0x86 => Some(entry(Operation::StoreX, AddressingMode::ZeroPage, 3)),
        0x88 => Some(entry(Operation::DecrementY, AddressingMode::Implicit, 2)),
        0x8A => Some(entry(Operation::TransferXA, AddressingMode::Implicit, 2)),
        0x8C => Some(entry(Operation::StoreY, AddressingMode::Absolute, 4)),
        0x8D => Some(entry(Operation::StoreA, AddressingMode::Absolute, 4)),
        0x8E => Some(entry(Operation::StoreX, AddressingMode::Absolute, 4)),
        0x90 => Some(entry(Operation::BranchCarryClear, AddressingMode::Relative, 2)),
        0x91 => Some(entry(Operation::StoreA, AddressingMode::IndirectY, 6)),
        0x94 => Some(entry(Operation::StoreY, AddressingMode::ZeroPageX, 4)),
        0x95 => Some(entry(Operation::StoreA, AddressingMode::ZeroPageX, 4)),
        0x96 => Some(entry(Operation::StoreX, AddressingMode::ZeroPageY, 4)),
        0x98 => Some(entry(Operation::TransferYA, AddressingMode::Implicit, 2)),
        0x99 => Some(entry(Operation::StoreA, AddressingMode::AbsoluteY, 5)),
        0x9A => Some(entry(Operation::TransferXS, AddressingMode::Implicit, 2)),
        0x9D => Some(entry(Operation::StoreA, AddressingMode::AbsoluteX, 5)),
        0xA0 => Some(entry(Operation::LoadY, AddressingMode::Immediate, 2)),
        0xA1 => Some(entry(Operation::LoadA, AddressingMode::IndirectX, 6)),
        0xA2 => Some(entry(Operation::LoadX, AddressingMode::Immediate, 2)),
        0xA4 => Some(entry(Operation::LoadY, AddressingMode::ZeroPage, 3)),
        0xA5 => Some(entry(Operation::LoadA, AddressingMode::ZeroPage, 3)),
        0xA6 => Some(entry(Operation::LoadX, AddressingMode::ZeroPage, 3)),
        0xA8 => Some(entry(Operation::TransferAY, AddressingMode::Implicit, 2)),
        0xA9 => Some(entry(Operation::LoadA, AddressingMode::Immediate, 2)),
        0xAA => Some(entry(Operation::TransferAX, AddressingMode::Implicit, 2)),
        0xAC => Some(entry(Operation::LoadY, AddressingMode::Absolute, 4)),
        0xAD => Some(entry(Operation::LoadA, AddressingMode::Absolute, 4)),
        0xAE => Some(entry(Operation::LoadX, AddressingMode::Absolute, 4)),
        0xB0 => Some(entry(Operation::BranchCarrySet, AddressingMode::Relative, 2)),
        0xB1 => Some(entry(Operation::LoadA, AddressingMode::IndirectY, 5)),
        0xB4 => Some(entry(Operation::LoadY, AddressingMode::ZeroPageX, 4)),
        0xB5 => Some(entry(Operation::LoadA, AddressingMode::ZeroPageX, 4)),
        0xB6 => Some(entry(Operation::LoadX, AddressingMode::ZeroPageY, 4)),
        0xB8 => Some(entry(Operation::ClearOverflow, AddressingMode::Implicit, 2)),
        0xB9 => Some(entry(Operation::LoadA, AddressingMode::AbsoluteY, 4)),
        0xBA => Some(entry(Operation::TransferSX, AddressingMode::Implicit, 2)),
        0xBC => Some(entry(Operation::LoadY, AddressingMode::AbsoluteX, 4)),
        0xBD => Some(entry(Operation::LoadA, AddressingMode::AbsoluteX, 4)),
        0xBE => Some(entry(Operation::LoadX, AddressingMode::AbsoluteY, 4)),
        0xC0 => Some(entry(Operation::CompareY, AddressingMode::Immediate, 2)),
        0xC1 => Some(entry(Operation::CompareA, AddressingMode::IndirectX, 6)),
        0xC4 => Some(entry(Operation::CompareY, AddressingMode::ZeroPage, 3)),
        0xC5 => Some(entry(Operation::CompareA, AddressingMode::ZeroPage, 3)),
        0xC6 => Some(entry(Operation::Decrement, AddressingMode::ZeroPage, 5)),
        0xC8 => Some(entry(Operation::IncrementY, AddressingMode::Implicit, 2)),
        0xC9 => Some(entry(Operation::CompareA, AddressingMode::Immediate, 2)),
        0xCA => Some(entry(Operation::DecrementX, AddressingMode::Implicit, 2)),
        0xCC => Some(entry(Operation::CompareY, AddressingMode::Absolute, 4)),
        0xCD => Some(entry(Operation::CompareA, AddressingMode::Absolute, 4)),
        0xCE => Some(entry(Operation::Decrement, AddressingMode::Absolute, 6)),
        0xD0 => Some(entry(Operation::BranchNotEqual, AddressingMode::Relative, 2)),
        0xD1 => Some(entry(Operation::CompareA, AddressingMode::IndirectY, 5)),
        0xD5 => Some(entry(Operation::CompareA, AddressingMode::ZeroPageX, 4)),
        0xD6 => Some(entry(Operation::Decrement, AddressingMode::ZeroPageX, 6)),
        0xD8 => Some(entry(Operation::ClearDecimal, AddressingMode::Implicit, 2)),
        0xD9 => Some(entry(Operation::CompareA, AddressingMode::AbsoluteY, 4)),
        0xDD => Some(entry(Operation::CompareA, AddressingMode::AbsoluteX, 4)),
        0xDE => Some(entry(Operation::Decrement, AddressingMode::AbsoluteX, 7)),
        0xE0 => Some(entry(Operation::CompareX, AddressingMode::Immediate, 2)),
        0xE1 => Some(entry(Operation::SubtractWithCarry, AddressingMode::IndirectX, 6)),
        0xE4 => Some(entry(Operation::CompareX, AddressingMode::ZeroPage, 3)),
        0xE5 => Some(entry(Operation::SubtractWithCarry, AddressingMode::ZeroPage, 3)),
        0xE6 => Some(entry(Operation::Increment, AddressingMode::ZeroPage, 5)),
        0xE8 => Some(entry(Operation::IncrementX, AddressingMode::Implicit, 2)),
        0xE9 => Some(entry(Operation::SubtractWithCarry, AddressingMode::Immediate, 2)),
        0xEA => Some(entry(Operation::NoOperation, AddressingMode::Implicit, 2)),
        0xEC => Some(entry(Operation::CompareX, AddressingMode::Absolute, 4)),
        0xED => Some(entry(Operation::SubtractWithCarry, AddressingMode::Absolute, 4)),
        0xEE => Some(entry(Operation::Increment, AddressingMode::Absolute, 6)),
        0xF0 => Some(entry(Operation::BranchEqual, AddressingMode::Relative, 2)),
        0xF1 => Some(entry(Operation::SubtractWithCarry, AddressingMode::IndirectY, 5)),
        0xF5 => Some(entry(Operation::SubtractWithCarry, AddressingMode::ZeroPageX, 4)),
        0xF6 => Some(entry(Operation::Increment, AddressingMode::ZeroPageX, 6)),
        0xF8 => Some(entry(Operation::SetDecimal, AddressingMode::Implicit, 2)),
        0xF9 => Some(entry(Operation::SubtractWithCarry, AddressingMode::AbsoluteY, 4)),
        0xFD => Some(entry(Operation::SubtractWithCarry, AddressingMode::AbsoluteX, 4)),
        0xFE => Some(entry(Operation::Increment, AddressingMode::AbsoluteX, 7)),
        _ => None,
    }
}

impl Operation {
    /// Whether the operation can work on `operand`: some read a value, some
    /// need an address, some change the accumulator or memory in place, and
    /// the rest take no operand at all.
    pub open spec fn takes(self, operand: Operand) -> bool {
        match self {
            Operation::LoadA
            | Operation::LoadX
            | Operation::LoadY
            | Operation::And
            | Operation::Or
            | Operation::ExclusiveOr
            | Operation::AddWithCarry
            | Operation::SubtractWithCarry
            | Operation::CompareA
            | Operation::CompareX
            | Operation::CompareY => operand is Immediate || operand is Address,
            Operation::BitTest
            | Operation::StoreA
            | Operation::StoreX
            | Operation::StoreY
            | Operation::Increment
            | Operation::Decrement
            | Operation::Jump
            | Operation::JumpSubroutine
            | Operation::BranchCarryClear
            | Operation::BranchCarrySet
            | Operation::BranchEqual
            | Operation::BranchMinus
            | Operation::BranchNotEqual
            | Operation::BranchPlus
            | Operation::BranchOverflowClear
            | Operation::BranchOverflowSet => operand is Address,
            Operation::ShiftLeft
            | Operation::ShiftRight
            | Operation::RotateLeft
            | Operation::RotateRight => operand is Accumulator || operand is Address,
            _ => operand is Implied,
        }
    }
}

/// Every entry of the table states the length that its mode implies:
/// between one and three bytes.
pub proof fn lemma_entry_length(opcode: u8)
    ensures
        decode(opcode) matches Some(found) ==> found.length == 1 + found.mode.operand_bytes() && 1
            <= found.length <= 3,
{
}

/// Every entry of the table pairs its operation with a mode that yields an
/// operand which the operation can work on.
pub proof fn lemma_entry_operand(opcode: u8, memory: Seq<u8>, operands: u16, x: u8, y: u8)
    ensures
        decode(opcode) matches Some(found) ==> found.operation.takes(
            operand_at(memory, operands, x, y, found.mode),
        ),
{
}

/// No two opcodes stand for the same operation in the same mode.
pub proof fn lemma_opcodes_distinct(first: u8, second: u8)
    requires
        decode(first) is Some,
        decode(second) is Some,
        decode(first)->0.operation == decode(second)->0.operation,
        decode(first)->0.mode == decode(second)->0.mode,
    ensures
        first == second,
{
}

} // verus!
