//! Addressing modes: how an instruction finds its operand.
//!
//! Resolution reads the bytes that follow the opcode and, for the indirect
//! modes, the pointer that they name. It changes nothing: the result is a
//! function of memory, of the address of the first operand byte and of the
//! two index registers.
use vstd::prelude::*;
use crate::alu::signed;
use crate::bus::{word, word_at, Bus};

verus! {

/// The scheme by which an instruction's operand is found.
#[derive(Debug, Clone, Copy, PartialEq, Eq, Structural)]
pub enum AddressingMode {
    /// The instruction names no operand.
    Implicit,
    /// The operand is the accumulator.
    Accumulator,
    /// The operand is the byte that follows the opcode.
    Immediate,
    /// One byte names an address in page zero.
    ZeroPage,
    /// One byte plus X, wrapping within page zero.
    ZeroPageX,
    /// One byte plus Y, wrapping within page zero.
    ZeroPageY,
    /// One byte is a signed displacement from the next instruction.
    Relative,
    /// Two bytes name an address.
    Absolute,
    /// Two bytes plus X.
    AbsoluteX,
    /// Two bytes plus Y.
    AbsoluteY,
    /// Two bytes name the address of a word that holds the address. The
    /// word is read as any other word: a pointer at the end of a page has
    /// its high byte at the start of the next page.
    Indirect,
    /// One byte plus X names a word in page zero that holds the address.
    IndirectX,
    /// One byte names a word in page zero; that word plus Y is the address.
    IndirectY,
}

/// Where an instruction's operand is.
#[derive(Debug, Clone, Copy, PartialEq, Eq, Structural)]
pub enum Operand {
    /// There is none.
    Implied,
    /// In the accumulator.
    Accumulator,
    /// In the instruction itself: this is its value.
    Immediate(u8),
    /// In memory at this address. For a branch this is the address that the
    /// branch goes to when it is taken.
    Address(u16),
}

/// An operand together with the number of bytes that naming it took.
#[derive(Debug, Clone, Copy, PartialEq, Eq, Structural)]
pub struct Resolution {
    pub operand: Operand,
    pub consumed: u8,
}

impl AddressingMode {
    /// Number of bytes that follow the opcode in this mode.
    pub open spec fn spec_operand_bytes(self) -> u8 {
        match self {
            AddressingMode::Implicit | AddressingMode::Accumulator => 0,
            AddressingMode::Immediate
            | AddressingMode::ZeroPage
            | AddressingMode::ZeroPageX
            | AddressingMode::ZeroPageY
            | AddressingMode::Relative
            | AddressingMode::IndirectX
            | AddressingMode::IndirectY => 1,
            AddressingMode::Absolute
            | AddressingMode::AbsoluteX
            | AddressingMode::AbsoluteY
            | AddressingMode::Indirect => 2,
        }
    }

    /// Number of bytes that follow the opcode in this mode.
    #[verifier::when_used_as_spec(spec_operand_bytes)]
    pub fn operand_bytes(self) -> (count: u8)
        ensures
            count == self.spec_operand_bytes(),
    {
        match self {
            AddressingMode::Implicit | AddressingMode::Accumulator => 0,
            AddressingMode::Immediate
            | AddressingMode::ZeroPage
            | AddressingMode::ZeroPageX
            | AddressingMode::ZeroPageY
            | AddressingMode::Relative
            | AddressingMode::IndirectX
            | AddressingMode::IndirectY => 1,
            AddressingMode::Absolute
            | AddressingMode::AbsoluteX
            | AddressingMode::AbsoluteY
            | AddressingMode::Indirect => 2,
        }
    }
}

/// `address + offset`, wrapping within page zero.
pub open spec fn zero_page_indexed(address: u8, offset: u8) -> u16 {
    ((address + offset) % 0x100) as u16
}

/// `address + offset`, wrapping at the end of the address space.
pub open spec fn indexed(address: u16, offset: u8) -> u16 {
    ((address + offset) % 0x1_0000) as u16
}

/// The word in page zero whose low byte lies at `pointer`. Its high byte
/// lies at `pointer + 1` within page zero, so a pointer at `0xFF` has its
/// high byte at `0x00`.
pub open spec fn zero_page_word(memory: Seq<u8>, pointer: u16) -> u16 {
    word(memory[pointer as int], memory[(pointer + 1) % 0x100])
}

/// Where a taken branch goes: the signed displacement is added to the
/// address of the instruction that follows the branch.
pub open spec fn branch_target(next_instruction: u16, displacement: u8) -> u16 {
    ((next_instruction + signed(displacement)) % 0x1_0000) as u16
}

/// The operand of an instruction in `mode` whose first operand byte lies at
/// `operands`.
pub open spec fn operand_at(
    memory: Seq<u8>,
    operands: u16,
    x: u8,
    y: u8,
    mode: AddressingMode,
) -> Operand {
    let first = memory[operands as int];
    match mode {
        AddressingMode::Implicit => Operand::Implied,
        AddressingMode::Accumulator => Operand::Accumulator,
        AddressingMode::Immediate => Operand::Immediate(first),
        AddressingMode::ZeroPage => Operand::Address(first as u16),
        AddressingMode::ZeroPageX => Operand::Address(zero_page_indexed(first, x)),
        AddressingMode::ZeroPageY => Operand::Address(zero_page_indexed(first, y)),
        AddressingMode::Relative => Operand::Address(
            branch_target(indexed(operands, 1), first),
        ),
        AddressingMode::Absolute => Operand::Address(word_at(memory, operands)),
        AddressingMode::AbsoluteX => Operand::Address(indexed(word_at(memory, operands), x)),
        AddressingMode::AbsoluteY => Operand::Address(indexed(word_at(memory, operands), y)),
        AddressingMode::Indirect => Operand::Address(word_at(memory, word_at(memory, operands))),
        AddressingMode::IndirectX => Operand::Address(
            zero_page_word(memory, zero_page_indexed(first, x)),
        ),
        AddressingMode::IndirectY => Operand::Address(
            indexed(zero_page_word(memory, first as u16), y),
        ),
    }
}

/// The operand of an instruction in `mode`, and the bytes that it took.
pub open spec fn spec_resolve(
    memory: Seq<u8>,
    operands: u16,
    x: u8,
    y: u8,
    mode: AddressingMode,
) -> Resolution {
    Resolution {
        operand: operand_at(memory, operands, x, y, mode),
        consumed: mode.spec_operand_bytes(),
    }
}

fn read_zero_page_word(bus: &Bus, pointer: u8) -> (value: u16)
    ensures
        value == zero_page_word(bus@, pointer as u16),
{
    let low = bus.read(pointer as u16);
    let high = bus.read(pointer.wrapping_add(1) as u16);
    (high as u16) * 0x100 + (low as u16)
}

/// Finds the operand of an instruction in `mode` whose first operand byte
/// lies at `operands`, with the index registers holding `x` and `y`.
pub fn resolve(bus: &Bus, operands: u16, x: u8, y: u8, mode: AddressingMode) -> (resolution:
    Resolution)
    ensures
        resolution == spec_resolve(bus@, operands, x, y, mode),
{
    let first = bus.read(operands);
    let operand = match mode {
        AddressingMode::Implicit => Operand::Implied,
        AddressingMode::Accumulator => Operand::Accumulator,
        AddressingMode::Immediate => Operand::Immediate(first),
        AddressingMode::ZeroPage => Operand::Address(first as u16),
        AddressingMode::ZeroPageX => Operand::Address(first.wrapping_add(x) as u16),
        AddressingMode::ZeroPageY => Operand::Address(first.wrapping_add(y) as u16),
        AddressingMode::Relative => {
            let next = operands.wrapping_add(1);
            if first < 0x80 {
                Operand::Address(next.wrapping_add(first as u16))
            } else {
                Operand::Address(next.wrapping_sub(0x100 - first as u16))
            }
        },
        AddressingMode::Absolute => Operand::Address(bus.read_word(operands)),
        AddressingMode::AbsoluteX => Operand::Address(
            bus.read_word(operands).wrapping_add(x as u16),
        ),
        AddressingMode::AbsoluteY => Operand::Address(
            bus.read_word(operands).wrapping_add(y as u16),
        ),
        AddressingMode::Indirect => Operand::Address(bus.read_word(bus.read_word(operands))),
        AddressingMode::IndirectX => Operand::Address(
            read_zero_page_word(bus, first.wrapping_add(x)),
        ),
        AddressingMode::IndirectY => Operand::Address(
            read_zero_page_word(bus, first).wrapping_add(y as u16),
        ),
    };
    Resolution { operand, consumed: mode.operand_bytes() }
}

/// An indexed zero-page address stays in page zero.
pub proof fn lemma_zero_page_stays(
    memory: Seq<u8>,
    operands: u16,
    x: u8,
    y: u8,
    mode: AddressingMode,
)
    requires
        mode == AddressingMode::ZeroPage || mode == AddressingMode::ZeroPageX || mode
            == AddressingMode::ZeroPageY,
    ensures
        operand_at(memory, operands, x, y, mode) matches Operand::Address(address) && address
            < 0x100,
{
}

/// A displacement below `0x80` moves a branch forward by that many bytes.
/// One from `0x80` on moves it back: adding `0x100` minus the displacement
/// to the target gives the next instruction again.
pub proof fn lemma_branch_reach(next_instruction: u16, displacement: u8)
    ensures
        displacement < 0x80 ==> branch_target(next_instruction, displacement) == indexed(
            next_instruction,
            displacement,
        ),
        displacement >= 0x80 ==> indexed(
            branch_target(next_instruction, displacement),
            (0x100 - displacement) as u8,
        ) == next_instruction,
{
}

} // verus!
