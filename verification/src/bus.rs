//! The memory bus: 64 KiB of byte-addressable storage.
//!
//! Addresses are 16 bits wide, so every address is valid. Words are stored
//! little-endian, and the second byte of a word at `0xFFFF` lies at `0x0000`.
use vstd::prelude::*;
use crate::error::CpuError;

verus! {

/// Number of bytes that the bus addresses.
pub const MEMORY_SIZE: usize = 0x1_0000;

/// The 16-bit word made of a low and a high byte.
pub open spec fn word(low: u8, high: u8) -> u16 {
    (high * 256 + low) as u16
}

/// The low byte of a word.
pub open spec fn low_byte(value: u16) -> u8 {
    (value % 256) as u8
}

/// The high byte of a word.
pub open spec fn high_byte(value: u16) -> u8 {
    (value / 256) as u8
}

/// Memory contents are modelled as a sequence with one byte per address.
pub open spec fn is_memory(memory: Seq<u8>) -> bool {
    memory.len() == MEMORY_SIZE
}

/// Memory in which every byte is zero.
pub open spec fn zeroed() -> Seq<u8> {
    Seq::new(MEMORY_SIZE as nat, |i: int| 0u8)
}

/// The little-endian word whose low byte lies at `address`.
pub open spec fn word_at(memory: Seq<u8>, address: u16) -> u16 {
    word(memory[address as int], memory[address.wrapping_add(1) as int])
}

/// Memory after storing `value` little-endian at `address`.
pub open spec fn store_word(memory: Seq<u8>, address: u16, value: u16) -> Seq<u8> {
    memory.update(address as int, low_byte(value)).update(
        address.wrapping_add(1) as int,
        high_byte(value),
    )
}

/// A program of this length fits into memory from `address` on.
pub open spec fn fits(length: nat, address: u16) -> bool {
    address + length <= MEMORY_SIZE
}

/// Memory after copying `program` to `address` and the addresses that follow.
pub open spec fn loaded(memory: Seq<u8>, program: Seq<u8>, address: u16) -> Seq<u8> {
    Seq::new(
        memory.len(),
        |i: int|
            if address <= i < address + program.len() {
                program[i - address]
            } else {
                memory[i]
            },
    )
}

/// Byte-addressable storage for the whole 16-bit address space.
pub struct Bus {
    bytes: Vec<u8>,
}

impl View for Bus {
    type V = Seq<u8>;

    closed spec fn view(&self) -> Seq<u8> {
        Seq::new(MEMORY_SIZE as nat, |i: int| self.bytes@[i])
    }
}

impl Bus {
    #[verifier::type_invariant]
    spec fn spans_address_space(&self) -> bool {
        self.bytes@.len() == MEMORY_SIZE
    }

    /// A bus whose memory is all zero.
    pub fn new() -> (bus: Bus)
        ensures
            bus@ == zeroed(),
    {
        let mut bytes: Vec<u8> = Vec::new();
        let mut i: usize = 0;
        while i < MEMORY_SIZE
            invariant
                i <= MEMORY_SIZE,
                bytes@ == Seq::new(i as nat, |j: int| 0u8),
            decreases MEMORY_SIZE - i,
        {
            bytes.push(0u8);
            i = i + 1;
            assert(bytes@ =~= Seq::new(i as nat, |j: int| 0u8));
        }
        let bus = Bus { bytes };
        assert(bus@ =~= zeroed());
        bus
    }

    /// The view of a bus has one byte for every address.
    pub proof fn lemma_spans(&self)
        ensures
            is_memory(self@),
    {
    }

    /// The byte at `address`.
    pub fn read(&self, address: u16) -> (value: u8)
        ensures
            value == self@[address as int],
    {
        proof {
            use_type_invariant(self);
        }
        self.bytes[address as usize]
    }

    /// Stores `value` at `address`.
    pub fn write(&mut self, address: u16, value: u8)
        ensures
            final(self)@ == old(self)@.update(address as int, value),
    {
        proof {
            use_type_invariant(&*self);
        }
        self.bytes[address as usize] = value;
        assert(self@ =~= old(self)@.update(address as int, value));
    }

    /// The little-endian word at `address`.
    pub fn read_word(&self, address: u16) -> (value: u16)
        ensures
            value == word_at(self@, address),
    {
        let low = self.read(address);
        let high = self.read(address.wrapping_add(1));
        (high as u16) * 256 + (low as u16)
    }

    /// Stores `value` little-endian at `address`.
    pub fn write_word(&mut self, address: u16, value: u16)
        ensures
            final(self)@ == store_word(old(self)@, address, value),
    {
        self.write(address, (value % 256) as u8);
        self.write(address.wrapping_add(1), (value / 256) as u8);
    }

    /// Copies `program` into memory, its first byte to `address`.
    ///
    /// Fails, and leaves memory as it was, when the program would run past
    /// the end of the address space.
    pub fn load(&mut self, program: &[u8], address: u16) -> (result: Result<(), CpuError>)
        ensures
            fits(program@.len(), address) ==> result == Ok::<(), CpuError>(())
                && final(self)@ == loaded(old(self)@, program@, address),
            !fits(program@.len(), address) ==> result == Err::<(), CpuError>(
                CpuError::ProgramTooLarge { length: program.len(), address },
            ) && final(self)@ == old(self)@,
    {
        proof {
            use_type_invariant(&*self);
        }
        let length = program.len();
        if length > MEMORY_SIZE - (address as usize) {
            return Err(CpuError::ProgramTooLarge { length, address });
        }
        let base: usize = address as usize;
        let mut i: usize = 0;
        assert(self@ =~= loaded(old(self)@, program@.take(0), address));
        while i < length
            invariant
                i <= length,
                length == program@.len(),
                base == address,
                base + length <= MEMORY_SIZE,
                self.bytes@.len() == MEMORY_SIZE,
                self@ == loaded(old(self)@, program@.take(i as int), address),
            decreases length - i,
        {
            let ghost before = self@;
            self.bytes[base + i] = program[i];
            assert(self@ =~= before.update(base + i, program@[i as int]));
            i = i + 1;
            assert(self@ =~= loaded(old(self)@, program@.take(i as int), address));
        }
        assert(program@.take(length as int) =~= program@);
        Ok(())
    }

    /// Sets every byte to zero.
    pub fn clear(&mut self)
        ensures
            final(self)@ == zeroed(),
    {
        proof {
            use_type_invariant(&*self);
        }
        let mut i: usize = 0;
        while i < MEMORY_SIZE
            invariant
                i <= MEMORY_SIZE,
                self.bytes@.len() == MEMORY_SIZE,
                forall|j: int| 0 <= j < i ==> self.bytes@[j] == 0u8,
            decreases MEMORY_SIZE - i,
        {
            self.bytes[i] = 0u8;
            i = i + 1;
        }
        assert(self@ =~= zeroed());
    }
}

/// Splitting a word into its bytes and joining them again gives the word
/// back, and the bytes of a joined word are the ones it was made of.
pub proof fn lemma_word_bytes(value: u16, low: u8, high: u8)
    ensures
        word(low_byte(value), high_byte(value)) == value,
        low_byte(word(low, high)) == low,
        high_byte(word(low, high)) == high,
{
}

/// A word that was stored is read back unchanged, also where it wraps round
/// the end of the address space.
pub proof fn lemma_store_then_read_word(memory: Seq<u8>, address: u16, value: u16)
    requires
        is_memory(memory),
    ensures
        is_memory(store_word(memory, address, value)),
        word_at(store_word(memory, address, value), address) == value,
{
}

} // verus!
