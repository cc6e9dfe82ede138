use mos6502::alu::{
    add_with_carry, rotate_left, rotate_right, shift_left, shift_right, subtract_with_carry,
    Shifted, Sum,
};

#[test]
fn addition_sign_table() {
    let sum = |value, carry, overflow| Sum { value, carry, overflow };
    assert_eq!(add_with_carry(0x50, 0x10, false), sum(0x60, false, false));
    assert_eq!(add_with_carry(0x50, 0x50, false), sum(0xA0, false, true));
    assert_eq!(add_with_carry(0x50, 0x90, false), sum(0xE0, false, false));
    assert_eq!(add_with_carry(0x50, 0xD0, false), sum(0x20, true, false));
    assert_eq!(add_with_carry(0xD0, 0x10, false), sum(0xE0, false, false));
    assert_eq!(add_with_carry(0xD0, 0x50, false), sum(0x20, true, false));
    assert_eq!(add_with_carry(0xD0, 0x90, false), sum(0x60, true, true));
    assert_eq!(add_with_carry(0xD0, 0xD0, false), sum(0xA0, true, false));
}

#[test]
fn addition_takes_the_carry_in() {
    let sum = |value, carry, overflow| Sum { value, carry, overflow };
    assert_eq!(add_with_carry(0x01, 0x01, true), sum(0x03, false, false));
    assert_eq!(add_with_carry(0xFF, 0x00, true), sum(0x00, true, false));
    assert_eq!(add_with_carry(0xFF, 0xFF, true), sum(0xFF, true, false));
    assert_eq!(add_with_carry(0x7F, 0x00, true), sum(0x80, false, true));
    assert_eq!(add_with_carry(0x00, 0x00, false), sum(0x00, false, false));
}

#[test]
fn addition_agrees_with_wide_arithmetic() {
    for left in 0..=255u8 {
        for right in 0..=255u8 {
            for carry in [false, true] {
                let sum = add_with_carry(left, right, carry);
                let unsigned = left as u32 + right as u32 + carry as u32;
                let signed = left as i8 as i32 + right as i8 as i32 + carry as i32;
                assert_eq!(sum.value as u32, unsigned % 256);
                assert_eq!(sum.carry, unsigned > 255);
                assert_eq!(sum.overflow, signed < -128 || signed > 127);
            }
        }
    }
}

#[test]
fn subtraction_sign_table() {
    let difference = |value, carry, overflow| Sum { value, carry, overflow };
    assert_eq!(subtract_with_carry(0x50, 0xF0, true), difference(0x60, false, false));
    assert_eq!(subtract_with_carry(0x50, 0xB0, true), difference(0xA0, false, true));
    assert_eq!(subtract_with_carry(0x50, 0x70, true), difference(0xE0, false, false));
    assert_eq!(subtract_with_carry(0x50, 0x30, true), difference(0x20, true, false));
    assert_eq!(subtract_with_carry(0xD0, 0xF0, true), difference(0xE0, false, false));
    assert_eq!(subtract_with_carry(0xD0, 0xB0, true), difference(0x20, true, false));
    assert_eq!(subtract_with_carry(0xD0, 0x70, true), difference(0x60, true, true));
    assert_eq!(subtract_with_carry(0xD0, 0x30, true), difference(0xA0, true, false));
}

#[test]
fn subtraction_borrows_when_the_carry_is_clear() {
    assert_eq!(
        subtract_with_carry(0x05, 0x03, false),
        Sum { value: 0x01, carry: true, overflow: false }
    );
    assert_eq!(
        subtract_with_carry(0x05, 0x05, false),
        Sum { value: 0xFF, carry: false, overflow: false }
    );
    assert_eq!(
        subtract_with_carry(0x00, 0x00, true),
        Sum { value: 0x00, carry: true, overflow: false }
    );
    assert_eq!(
        subtract_with_carry(0x80, 0x00, false),
        Sum { value: 0x7F, carry: true, overflow: true }
    );
}

#[test]
fn subtraction_agrees_with_wide_arithmetic() {
    for left in 0..=255u8 {
        for right in 0..=255u8 {
            for carry in [false, true] {
                let difference = subtract_with_carry(left, right, carry);
                let borrow = 1 - carry as i32;
                let unsigned = left as i32 - right as i32 - borrow;
                let signed = left as i8 as i32 - right as i8 as i32 - borrow;
                assert_eq!(difference.value as i32, unsigned.rem_euclid(256));
                assert_eq!(difference.carry, unsigned >= 0);
                assert_eq!(difference.overflow, signed < -128 || signed > 127);
            }
        }
    }
}

#[test]
fn shifts_exact_values() {
    assert_eq!(shift_left(0x81), Shifted { value: 0x02, carry: true });
    assert_eq!(shift_left(0x40), Shifted { value: 0x80, carry: false });
    assert_eq!(shift_left(0x00), Shifted { value: 0x00, carry: false });
    assert_eq!(shift_right(0x03), Shifted { value: 0x01, carry: true });
    assert_eq!(shift_right(0x80), Shifted { value: 0x40, carry: false });
    assert_eq!(shift_right(0x01), Shifted { value: 0x00, carry: true });
}

#[test]
fn rotations_exact_values() {
    assert_eq!(rotate_left(0x80, true), Shifted { value: 0x01, carry: true });
    assert_eq!(rotate_left(0x80, false), Shifted { value: 0x00, carry: true });
    assert_eq!(rotate_left(0x41, true), Shifted { value: 0x83, carry: false });
    assert_eq!(rotate_right(0x01, true), Shifted { value: 0x80, carry: true });
    assert_eq!(rotate_right(0x01, false), Shifted { value: 0x00, carry: true });
    assert_eq!(rotate_right(0x82, true), Shifted { value: 0xC1, carry: false });
}

#[test]
fn rotating_there_and_back_gives_the_start() {
    for value in 0..=255u8 {
        for carry in [false, true] {
            let left = rotate_left(value, carry);
            assert_eq!(rotate_right(left.value, left.carry), Shifted { value, carry });
            let right = rotate_right(value, carry);
            assert_eq!(rotate_left(right.value, right.carry), Shifted { value, carry });
        }
    }
}
