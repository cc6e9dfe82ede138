//! The processor status register: eight flags packed into one byte.
//!
//! The register is kept as a plain `u8` so that it can be pushed, pulled and
//! inspected as the hardware does. The functions here read and change single
//! flags of such a byte, and the lemmas state how reading and changing
//! interact.
use vstd::prelude::*;

verus! {

/// One flag of the status register.
#[derive(Debug, Clone, Copy, PartialEq, Eq, Structural)]
pub enum Flag {
    /// Bit 0: carry out of, or borrow into, the last arithmetic or shift.
    Carry,
    /// Bit 1: the last result was zero.
    Zero,
    /// Bit 2: interrupt requests are ignored.
    InterruptDisable,
    /// Bit 3: decimal mode is selected.
    Decimal,
    /// Bit 4: break.
    Break,
    /// Bit 5: not wired to anything.
    Unused,
    /// Bit 6: the last signed arithmetic overflowed.
    Overflow,
    /// Bit 7: bit 7 of the last result.
    Negative,
}

impl Flag {
    /// The byte in which only this flag's bit is set.
    pub open spec fn spec_mask(self) -> u8 {
        match self {
            Flag::Carry => 0b0000_0001,
            Flag::Zero => 0b0000_0010,
            Flag::InterruptDisable => 0b0000_0100,
            Flag::Decimal => 0b0000_1000,
            Flag::Break => 0b0001_0000,
            Flag::Unused => 0b0010_0000,
            Flag::Overflow => 0b0100_0000,
            Flag::Negative => 0b1000_0000,
        }
    }

    /// The byte in which only this flag's bit is set.
    #[verifier::when_used_as_spec(spec_mask)]
    pub fn mask(self) -> (mask: u8)
        ensures
            mask == self.spec_mask(),
    {
        match self {
            Flag::Carry => 0b0000_0001,
            Flag::Zero => 0b0000_0010,
            Flag::InterruptDisable => 0b0000_0100,
            Flag::Decimal => 0b0000_1000,
            Flag::Break => 0b0001_0000,
            Flag::Unused => 0b0010_0000,
            Flag::Overflow => 0b0100_0000,
            Flag::Negative => 0b1000_0000,
        }
    }
}

/// Whether `flag` is set in `status`.
pub open spec fn spec_is_set(status: u8, flag: Flag) -> bool {
    status & flag.spec_mask() != 0
}

/// `status` with `flag` set if `on` holds and cleared otherwise.
pub open spec fn spec_with_flag(status: u8, flag: Flag, on: bool) -> u8 {
    if on {
        status | flag.spec_mask()
    } else {
        status & !flag.spec_mask()
    }
}

/// Whether bit 7 of `value` is set: the sign of the byte read as a
/// two's-complement number.
pub open spec fn spec_is_negative(value: u8) -> bool {
    value >= 0x80
}

/// `status` after an operation that produced `result`: Zero says whether the
/// result is zero, Negative repeats its bit 7.
pub open spec fn spec_with_zero_negative(status: u8, result: u8) -> u8 {
    spec_with_flag(
        spec_with_flag(status, Flag::Zero, result == 0),
        Flag::Negative,
        spec_is_negative(result),
    )
}

/// Whether `flag` is set in `status`.
#[verifier::when_used_as_spec(spec_is_set)]
pub fn is_set(status: u8, flag: Flag) -> (set: bool)
    ensures
        set == spec_is_set(status, flag),
{
    status & flag.mask() != 0
}

/// `status` with `flag` set if `on` holds and cleared otherwise. No other
/// flag changes.
#[verifier::when_used_as_spec(spec_with_flag)]
pub fn with_flag(status: u8, flag: Flag, on: bool) -> (updated: u8)
    ensures
        updated == spec_with_flag(status, flag, on),
        forall|other: Flag|
            is_set(updated, other) == (if other == flag {
                on
            } else {
                is_set(status, other)
            }),
{
    proof {
        lemma_with_flag(status, flag, on);
    }
    if on {
        status | flag.mask()
    } else {
        status & !flag.mask()
    }
}

/// Whether bit 7 of `value` is set.
#[verifier::when_used_as_spec(spec_is_negative)]
pub fn is_negative(value: u8) -> (negative: bool)
    ensures
        negative == spec_is_negative(value),
{
    proof {
        lemma_bit_seven(value);
    }
    value & 0b1000_0000 != 0
}

/// `status` after an operation that produced `result`: Zero is set exactly
/// when the result is zero, Negative exactly when its bit 7 is set, and no
/// other flag changes.
#[verifier::when_used_as_spec(spec_with_zero_negative)]
pub fn with_zero_negative(status: u8, result: u8) -> (updated: u8)
    ensures
        updated == spec_with_zero_negative(status, result),
        is_set(updated, Flag::Zero) == (result == 0),
        is_set(updated, Flag::Negative) == is_negative(result),
        forall|other: Flag|
            other != Flag::Zero && other != Flag::Negative ==> is_set(updated, other) == is_set(
                status,
                other,
            ),
{
    proof {
        lemma_with_zero_negative(status, result);
    }
    let zeroed = with_flag(status, Flag::Zero, result == 0);
    with_flag(zeroed, Flag::Negative, is_negative(result))
}

proof fn lemma_bit_algebra(status: u8, m: u8, n: u8)
    by (bit_vector)
    requires
        m == 1 || m == 2 || m == 4 || m == 8 || m == 16 || m == 32 || m == 64 || m == 128,
        n == 1 || n == 2 || n == 4 || n == 8 || n == 16 || n == 32 || n == 64 || n == 128,
    ensures
        ((status | m) & n != 0) == (m == n || status & n != 0),
        ((status & !m) & n != 0) == (m != n && status & n != 0),
{
}

/// The mask form of the sign test agrees with the numeric one.
pub proof fn lemma_bit_seven(value: u8)
    ensures
        (value & 0b1000_0000 != 0) == is_negative(value),
{
    assert((value & 0b1000_0000 != 0) == (value >= 0x80)) by (bit_vector);
}

/// Two flags have the same mask only if they are the same flag.
pub proof fn lemma_masks_distinct(first: Flag, second: Flag)
    ensures
        first.mask() == second.mask() <==> first == second,
{
}

/// Changing one flag gives that flag the new value and leaves the seven
/// others as they were.
pub proof fn lemma_with_flag(status: u8, flag: Flag, on: bool)
    ensures
        forall|other: Flag|
            #[trigger] is_set(with_flag(status, flag, on), other) == (if other == flag {
                on
            } else {
                is_set(status, other)
            }),
{
    assert forall|other: Flag|
        #[trigger] is_set(with_flag(status, flag, on), other) == (if other == flag {
            on
        } else {
            is_set(status, other)
        }) by {
        lemma_bit_algebra(status, flag.mask(), other.mask());
        lemma_masks_distinct(flag, other);
    }
}

/// The shared flag update sets Zero and Negative from the result and leaves
/// the six other flags as they were.
pub proof fn lemma_with_zero_negative(status: u8, result: u8)
    ensures
        is_set(with_zero_negative(status, result), Flag::Zero) == (result == 0),
        is_set(with_zero_negative(status, result), Flag::Negative) == is_negative(result),
        forall|other: Flag|
            other != Flag::Zero && other != Flag::Negative ==> #[trigger] is_set(
                with_zero_negative(status, result),
                other,
            ) == is_set(status, other),
{
    let zeroed = with_flag(status, Flag::Zero, result == 0);
    lemma_with_flag(status, Flag::Zero, result == 0);
    lemma_with_flag(zeroed, Flag::Negative, is_negative(result));
}

/// A status byte is determined by its eight flags.
pub proof fn lemma_flags_determine_status(first: u8, second: u8)
    requires
        forall|flag: Flag| is_set(first, flag) == is_set(second, flag),
    ensures
        first == second,
{
    assert(is_set(first, Flag::Carry) == is_set(second, Flag::Carry));
    assert(is_set(first, Flag::Zero) == is_set(second, Flag::Zero));
    assert(is_set(first, Flag::InterruptDisable) == is_set(second, Flag::InterruptDisable));
    assert(is_set(first, Flag::Decimal) == is_set(second, Flag::Decimal));
    assert(is_set(first, Flag::Break) == is_set(second, Flag::Break));
    assert(is_set(first, Flag::Unused) == is_set(second, Flag::Unused));
    assert(is_set(first, Flag::Overflow) == is_set(second, Flag::Overflow));
    assert(is_set(first, Flag::Negative) == is_set(second, Flag::Negative));
    assert(first == second) by (bit_vector)
        requires
            (first & 1 != 0) == (second & 1 != 0),
            (first & 2 != 0) == (second & 2 != 0),
            (first & 4 != 0) == (second & 4 != 0),
            (first & 8 != 0) == (second & 8 != 0),
            (first & 16 != 0) == (second & 16 != 0),
            (first & 32 != 0) == (second & 32 != 0),
            (first & 64 != 0) == (second & 64 != 0),
            (first & 128 != 0) == (second & 128 != 0),
    ;
}

} // verus!
