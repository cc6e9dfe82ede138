//! The processor: registers, status flags and the memory bus, and the loop
//! that fetches, decodes and executes instructions.
use vstd::prelude::*;
use crate::addressing::Operand;
use crate::bus::{fits, zeroed, Bus};
use crate::error::CpuError;
use crate::opcode::decode;
use crate::state::{State, STACK_PAGE, STACK_RESET};
use crate::status::{is_set, spec_is_negative, with_flag, with_zero_negative, Flag};

verus! {

/// A processor with its memory. One value owns all of its state, so
/// several processors can run side by side without sharing anything.
pub struct CPU {
    /// Address of the next byte to fetch.
    pub program_counter: u16,
    /// The accumulator.
    pub register_a: u8,
    /// Index register X.
    pub register_x: u8,
    /// Index register Y.
    pub register_y: u8,
    /// Low byte of the address of the next free stack slot.
    pub stack_pointer: u8,
    /// The eight status flags, one bit each.
    pub status: u8,
    /// Set once the processor has halted; it then fetches no more.
    pub halted: bool,
    /// The memory that instructions read and write.
    pub memory: Bus,
}

impl View for CPU {
    type V = State;

    open spec fn view(&self) -> State {
        State {
            program_counter: self.program_counter,
            register_a: self.register_a,
            register_x: self.register_x,
            register_y: self.register_y,
            stack_pointer: self.stack_pointer,
            status: self.status,
            halted: self.halted,
            memory: self.memory@,
        }
    }
}

impl CPU {
    /// A processor after power-on: every register and every byte of memory
    /// zero, the stack pointer at its reset value.
    pub fn new() -> (cpu: CPU)
        ensures
            cpu@ == State::power_on(),
    {
        CPU {
            program_counter: 0,
            register_a: 0,
            register_x: 0,
            register_y: 0,
            stack_pointer: STACK_RESET,
            status: 0,
            halted: false,
            memory: Bus::new(),
        }
    }

    /// The model of a processor is always well-formed.
    pub proof fn lemma_wf(&self)
        ensures
            self@.wf(),
    {
        self.memory.lemma_spans();
    }

    /// Puts the registers back to their power-on values, clears the halt
    /// latch and makes `entry_point` the next address to fetch. Memory is
    /// kept.
    pub fn reset(&mut self, entry_point: u16)
        ensures
            final(self)@ == old(self)@.reset(entry_point),
    {
        self.program_counter = entry_point;
        self.register_a = 0;
        self.register_x = 0;
        self.register_y = 0;
        self.stack_pointer = STACK_RESET;
        self.status = 0;
        self.halted = false;
    }

    /// Sets every byte of memory to zero. The registers are kept.
    pub fn clear_memory(&mut self)
        ensures
            final(self)@ == (State { memory: zeroed(), ..old(self)@ }),
    {
        self.memory.clear();
    }

    /// Copies `program` into memory at `address` and gets ready to fetch its
    /// first byte there. The registers are kept.
    ///
    /// Fails, and changes nothing, when the program would run past the end
    /// of the address space.
    pub fn load(&mut self, program: &[u8], address: u16) -> (result: Result<(), CpuError>)
        ensures
            fits(program@.len(), address) ==> result == Ok::<(), CpuError>(()) && final(self)@
                == old(self)@.load(program@, address),
            !fits(program@.len(), address) ==> result == Err::<(), CpuError>(
                CpuError::ProgramTooLarge { length: program.len(), address },
            ) && final(self)@ == old(self)@,
    {
        match self.memory.load(program, address) {
            Ok(()) => {
                self.program_counter = address;
                self.halted = false;
                Ok(())
            },
            Err(error) => Err(error),
        }
    }

    /// Whether `flag` is set.
    pub fn flag(&self, flag: Flag) -> (set: bool)
        ensures
            set == self@.flag(flag),
    {
        is_set(self.status, flag)
    }

    /// Sets or clears `flag`. No other flag changes.
    pub fn set_flag(&mut self, flag: Flag, on: bool)
        ensures
            final(self)@ == old(self)@.with_flag(flag, on),
            forall|other: Flag|
                final(self)@.flag(other) == (if other == flag {
                    on
                } else {
                    old(self)@.flag(other)
                }),
    {
        self.status = with_flag(self.status, flag, on);
    }

    /// Updates the Zero and Negative flags from the result of an operation:
    /// Zero is set exactly when the result is zero, Negative exactly when
    /// its bit 7 is set. No other flag changes.
    pub fn update_z_n_flags(&mut self, result: u8)
        ensures
            final(self)@ == old(self)@.with_zero_negative(result),
            final(self)@.flag(Flag::Zero) == (result == 0),
            final(self)@.flag(Flag::Negative) == spec_is_negative(result),
            forall|other: Flag|
                other != Flag::Zero && other != Flag::Negative ==> final(self)@.flag(other) == old(
                    self,
                )@.flag(other),
    {
        self.status = with_zero_negative(self.status, result);
    }

    /// The value that `operand` stands for. An instruction without operand
    /// reads zero.
    pub fn value_of(&self, operand: Operand) -> (value: u8)
        ensures
            value == self@.value_of(operand),
    {
        match operand {
            Operand::Implied => 0,
            Operand::Accumulator => self.register_a,
            Operand::Immediate(value) => value,
            Operand::Address(address) => self.memory.read(address),
        }
    }

    /// Stores `value` where `operand` says: in the accumulator or in memory.
    /// Nothing is stored for an immediate operand or for none.
    pub fn store_operand(&mut self, operand: Operand, value: u8)
        ensures
            final(self)@ == old(self)@.with_operand(operand, value),
    {
        match operand {
            Operand::Accumulator => {
                self.register_a = value;
            },
            Operand::Address(address) => {
                self.memory.write(address, value);
            },
            _ => {},
        }
    }

    /// Pushes `value`: stores it in the free stack slot and lowers the stack
    /// pointer by one, wrapping within the stack page.
    pub fn push(&mut self, value: u8)
        ensures
            final(self)@ == old(self)@.push(value),
    {
        self.memory.write(STACK_PAGE + self.stack_pointer as u16, value);
        self.stack_pointer = self.stack_pointer.wrapping_sub(1);
    }

    /// Pulls a byte: raises the stack pointer by one, wrapping within the
    /// stack page, and reads the slot that it then names.
    pub fn pull(&mut self) -> (value: u8)
        ensures
            final(self)@ == old(self)@.pop(),
            value == old(self)@.pulled(),
    {
        self.stack_pointer = self.stack_pointer.wrapping_add(1);
        self.memory.read(STACK_PAGE + self.stack_pointer as u16)
    }

    /// Fetches the byte at the program counter and moves the program counter
    /// past it, wrapping at the end of the address space.
    pub fn fetch(&mut self) -> (byte: u8)
        ensures
            byte == old(self)@.opcode(),
            final(self)@ == old(self)@.advance(1),
    {
        let byte = self.memory.read(self.program_counter);
        self.program_counter = self.program_counter.wrapping_add(1);
        byte
    }

    /// Executes one instruction.
    ///
    /// A halted processor stays as it is. A running one fetches the opcode
    /// at the program counter and moves past it. If the opcode is in the
    /// table, the instruction is executed. If it is not, the processor halts
    /// and the step fails with the opcode and the address it was fetched
    /// from.
    pub fn step(&mut self) -> (result: Result<(), CpuError>)
        ensures
            final(self)@ == old(self)@.step(),
            result == match old(self)@.fault() {
                Some(error) => Err::<(), CpuError>(error),
                None => Ok::<(), CpuError>(()),
            },
    {
        if self.halted {
            return Ok(());
        }
        let address = self.program_counter;
        let opcode = self.fetch();
        match decode(opcode) {
            Some(entry) => {
                self.execute(entry);
                Ok(())
            },
            None => {
                self.halted = true;
                Err(CpuError::IllegalOpcode { opcode, address })
            },
        }
    }

    /// Executes instructions until the processor halts, but `budget` of
    /// them at most.
    ///
    /// Fails when a step fails; the processor has then halted. Otherwise
    /// `halted` tells whether the run ended in a halt or the budget ran out.
    pub fn run(&mut self, budget: u64) -> (result: Result<(), CpuError>)
        ensures
            final(self)@ == old(self)@.run(budget as nat),
            result == match old(self)@.run_fault(budget as nat) {
                Some(error) => Err::<(), CpuError>(error),
                None => Ok::<(), CpuError>(()),
            },
    {
        let mut remaining = budget;
        while remaining > 0 && !self.halted
            invariant
                self@.run(remaining as nat) == old(self)@.run(budget as nat),
                self@.run_fault(remaining as nat) == old(self)@.run_fault(budget as nat),
            decreases remaining,
        {
            match self.step() {
                Ok(()) => {},
                Err(error) => {
                    // The failed step has halted the processor, so the rest
                    // of the budget changes nothing.
                    assert(self@.run((remaining - 1) as nat) == self@);
                    return Err(error);
                },
            }
            remaining = remaining - 1;
        }
        Ok(())
    }

    /// Loads `program` at address zero and runs it from there until the
    /// processor halts. The registers keep the values that they had.
    ///
    /// The run is cut after `u64::MAX` steps, which no program reaches in
    /// practice; use [`CPU::load`] and [`CPU::run`] to run with a budget.
    ///
    /// Fails, and changes nothing, when the program is larger than memory;
    /// fails when the run meets a byte that is no opcode.
    pub fn interpret(&mut self, program: Vec<u8>) -> (result: Result<(), CpuError>)
        ensures
            fits(program@.len(), 0) ==> final(self)@ == old(self)@.load(program@, 0).run(
                u64::MAX as nat,
            ) && result == match old(self)@.load(program@, 0).run_fault(u64::MAX as nat) {
                Some(error) => Err::<(), CpuError>(error),
                None => Ok::<(), CpuError>(()),
            },
            !fits(program@.len(), 0) ==> final(self)@ == old(self)@ && result == Err::<
                (),
                CpuError,
            >(CpuError::ProgramTooLarge { length: program.len(), address: 0 }),
    {
        match self.load(program.as_slice(), 0) {
            Ok(()) => self.run(u64::MAX),
            Err(error) => Err(error),
        }
    }
}

} // verus!
