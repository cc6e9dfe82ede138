//! Arithmetic on bytes as the processor performs it.
//!
//! Every function here is a pure function of its arguments. The contracts
//! state the results over the integers: a sum that does not fit into a byte
//! is reduced modulo 256 and reported through the carry, and overflow means
//! that the signed result lies outside `-128..=127`.
use vstd::prelude::*;
use crate::status::{is_negative, lemma_bit_seven};

verus! {

/// The number that a byte stands for in two's complement.
pub open spec fn signed(value: u8) -> int {
    if value >= 0x80 {
        value - 0x100
    } else {
        value as int
    }
}

/// A carry flag as the number that it adds.
pub open spec fn carry_value(carry: bool) -> int {
    if carry {
        1
    } else {
        0
    }
}

/// Whether a signed result can be held in a byte.
pub open spec fn fits_signed_byte(value: int) -> bool {
    -128 <= value <= 127
}

/// What an addition or a subtraction hands to the registers and the flags.
#[derive(Debug, Clone, Copy, PartialEq, Eq, Structural)]
pub struct Sum {
    /// The low eight bits of the result.
    pub value: u8,
    /// Addition: the unsigned result did not fit. Subtraction: no borrow
    /// was needed.
    pub carry: bool,
    /// The signed result did not fit.
    pub overflow: bool,
}

/// What a shift or a rotation hands to its operand and to the carry flag.
#[derive(Debug, Clone, Copy, PartialEq, Eq, Structural)]
pub struct Shifted {
    /// The operand after the shift.
    pub value: u8,
    /// The bit that was shifted out.
    pub carry: bool,
}

/// `left + right + carry`.
pub open spec fn spec_add_with_carry(left: u8, right: u8, carry: bool) -> Sum {
    let total = left + right + carry_value(carry);
    Sum {
        value: (total % 0x100) as u8,
        carry: total > 0xFF,
        overflow: !fits_signed_byte(signed(left) + signed(right) + carry_value(carry)),
    }
}

/// `left - right - (1 - carry)`: a clear carry borrows one.
pub open spec fn spec_subtract_with_carry(left: u8, right: u8, carry: bool) -> Sum {
    let borrow = 1 - carry_value(carry);
    let difference = left - right - borrow;
    Sum {
        value: (difference % 0x100) as u8,
        carry: difference >= 0,
        overflow: !fits_signed_byte(signed(left) - signed(right) - borrow),
    }
}

/// `value` doubled; bit 7 leaves into the carry.
pub open spec fn spec_shift_left(value: u8) -> Shifted {
    Shifted { value: ((value * 2) % 0x100) as u8, carry: value >= 0x80 }
}

/// `value` halved; bit 0 leaves into the carry.
pub open spec fn spec_shift_right(value: u8) -> Shifted {
    Shifted { value: value / 2, carry: value % 2 == 1 }
}

/// `value` doubled with the old carry entering at bit 0; bit 7 leaves into
/// the carry.
pub open spec fn spec_rotate_left(value: u8, carry: bool) -> Shifted {
    Shifted { value: ((value * 2 + carry_value(carry)) % 0x100) as u8, carry: value >= 0x80 }
}

/// `value` halved with the old carry entering at bit 7; bit 0 leaves into
/// the carry.
pub open spec fn spec_rotate_right(value: u8, carry: bool) -> Shifted {
    Shifted { value: (value / 2 + 0x80 * carry_value(carry)) as u8, carry: value % 2 == 1 }
}

/// Adds two bytes and a carry.
#[verifier::when_used_as_spec(spec_add_with_carry)]
pub fn add_with_carry(left: u8, right: u8, carry: bool) -> (sum: Sum)
    ensures
        sum == spec_add_with_carry(left, right, carry),
        sum.value + 0x100 * carry_value(sum.carry) == left + right + carry_value(carry),
{
    let total: u16 = left as u16 + right as u16 + if carry {
        1u16
    } else {
        0u16
    };
    let value: u8 = (total % 0x100) as u8;
    proof {
        lemma_sign_rule(left, right, value);
    }
    Sum {
        value,
        carry: total > 0xFF,
        overflow: (left ^ value) & (right ^ value) & 0b1000_0000 != 0,
    }
}

/// Subtracts a byte and a borrow from a byte, as the processor does it:
/// by adding the complement of the subtrahend.
#[verifier::when_used_as_spec(spec_subtract_with_carry)]
pub fn subtract_with_carry(left: u8, right: u8, carry: bool) -> (difference: Sum)
    ensures
        difference == spec_subtract_with_carry(left, right, carry),
        difference.value - 0x100 * (1 - carry_value(difference.carry)) == left - right - (1
            - carry_value(carry)),
{
    proof {
        lemma_complement(right);
    }
    add_with_carry(left, !right, carry)
}

/// Shifts a byte left by one bit.
#[verifier::when_used_as_spec(spec_shift_left)]
pub fn shift_left(value: u8) -> (shifted: Shifted)
    ensures
        shifted == spec_shift_left(value),
{
    proof {
        lemma_shifts(value, false);
        lemma_bit_seven(value);
    }
    Shifted { value: value << 1, carry: value & 0b1000_0000 != 0 }
}

/// Shifts a byte right by one bit.
#[verifier::when_used_as_spec(spec_shift_right)]
pub fn shift_right(value: u8) -> (shifted: Shifted)
    ensures
        shifted == spec_shift_right(value),
{
    proof {
        lemma_shifts(value, false);
    }
    Shifted { value: value >> 1, carry: value & 0b0000_0001 != 0 }
}

/// Rotates a byte left by one bit through the carry.
#[verifier::when_used_as_spec(spec_rotate_left)]
pub fn rotate_left(value: u8, carry: bool) -> (rotated: Shifted)
    ensures
        rotated == spec_rotate_left(value, carry),
{
    proof {
        lemma_shifts(value, carry);
        lemma_bit_seven(value);
    }
    let low: u8 = if carry {
        0b0000_0001
    } else {
        0
    };
    Shifted { value: (value << 1) | low, carry: value & 0b1000_0000 != 0 }
}

/// Rotates a byte right by one bit through the carry.
#[verifier::when_used_as_spec(spec_rotate_right)]
pub fn rotate_right(value: u8, carry: bool) -> (rotated: Shifted)
    ensures
        rotated == spec_rotate_right(value, carry),
{
    proof {
        lemma_shifts(value, carry);
    }
    let high: u8 = if carry {
        0b1000_0000
    } else {
        0
    };
    Shifted { value: (value >> 1) | high, carry: value & 0b0000_0001 != 0 }
}

proof fn lemma_sign_rule(left: u8, right: u8, value: u8)
    ensures
        ((left ^ value) & (right ^ value) & 0b1000_0000 != 0) == ((left < 0x80 && right < 0x80
            && value >= 0x80) || (left >= 0x80 && right >= 0x80 && value < 0x80)),
{
    assert(((left ^ value) & (right ^ value) & 0b1000_0000 != 0) == ((left < 0x80 && right < 0x80
        && value >= 0x80) || (left >= 0x80 && right >= 0x80 && value < 0x80))) by (bit_vector);
}

proof fn lemma_complement(value: u8)
    ensures
        !value == 0xFF - value,
{
    assert(!value == 0xFF - value) by (bit_vector);
}

proof fn lemma_shifts(value: u8, carry: bool)
    ensures
        value << 1 == (value * 2) % 0x100,
        value >> 1 == value / 2,
        (value & 0b0000_0001 != 0) == (value % 2 == 1),
        (value << 1) | 0 == (value * 2) % 0x100,
        (value << 1) | 0b0000_0001 == (value * 2 + 1) % 0x100,
        (value >> 1) | 0 == value / 2,
        (value >> 1) | 0b1000_0000 == value / 2 + 0x80,
{
    assert(value << 1 == (value * 2) % 0x100) by (bit_vector);
    assert(value >> 1 == value / 2) by (bit_vector);
    assert((value & 0b0000_0001 != 0) == (value % 2 == 1)) by (bit_vector);
    assert((value << 1) | 0 == (value * 2) % 0x100) by (bit_vector);
    assert((value << 1) | 0b0000_0001 == (value * 2 + 1) % 0x100) by (bit_vector);
    assert((value >> 1) | 0 == value / 2) by (bit_vector);
    assert((value >> 1) | 0b1000_0000 == value / 2 + 0x80) by (bit_vector);
}

/// Overflow of an addition, said by signs: both operands have one sign and
/// the result has the other.
pub proof fn lemma_add_overflow_by_sign(left: u8, right: u8, carry: bool)
    ensures
        add_with_carry(left, right, carry).overflow == (is_negative(left) == is_negative(right)
            && is_negative(add_with_carry(left, right, carry).value) != is_negative(left)),
{
}

/// Subtracting is adding the complement: `left - right - borrow` and
/// `left + (255 - right) + carry` agree in value, carry and overflow.
pub proof fn lemma_subtract_is_add_complement(left: u8, right: u8, carry: bool)
    ensures
        subtract_with_carry(left, right, carry) == add_with_carry(
            left,
            (0xFF - right) as u8,
            carry,
        ),
{
}

/// Rotating left and then right through the carry, or right and then left,
/// gives back the byte and the carry that one started with.
pub proof fn lemma_rotate_round_trip(value: u8, carry: bool)
    ensures
        rotate_right(rotate_left(value, carry).value, rotate_left(value, carry).carry)
            == (Shifted { value, carry }),
        rotate_left(rotate_right(value, carry).value, rotate_right(value, carry).carry)
            == (Shifted { value, carry }),
{
}

} // verus!
