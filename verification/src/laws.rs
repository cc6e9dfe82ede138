//! What holds of the processor in every state.
//!
//! Each proof function states one law over the model in [`crate::state`].
//! The executable processor is verified to follow that model, so the laws
//! hold of it too.
use vstd::prelude::*;
use crate::addressing::{branch_target, indexed, AddressingMode, Operand};
use crate::alu::{
    carry_value, fits_signed_byte, signed, spec_add_with_carry, spec_rotate_left,
    spec_rotate_right, spec_shift_left, spec_shift_right, spec_subtract_with_carry, Shifted, Sum,
};
use crate::bus::{fits, loaded};
use crate::opcode::{lemma_entry_length, spec_decode, Operation};
use crate::state::{Phase, State};
use crate::status::{
    lemma_bit_seven, lemma_with_flag, lemma_with_zero_negative, spec_is_negative, spec_is_set,
    spec_with_zero_negative, Flag,
};

verus! {

/// Loading the accumulator with `value` puts `value` there, sets Zero
/// exactly when the value is zero and Negative exactly when its bit 7 is
/// set, and changes no other flag and nothing else.
pub proof fn lemma_load_accumulator(state: State, value: u8)
    ensures
        state.lda(value).register_a == value,
        state.lda(value).flag(Flag::Zero) == (value == 0),
        state.lda(value).flag(Flag::Negative) == (value & 0b1000_0000 != 0),
        state.lda(value).flag(Flag::Negative) == (value >= 0x80),
        forall|other: Flag|
            other != Flag::Zero && other != Flag::Negative ==> state.lda(value).flag(other)
                == state.flag(other),
        state.lda(value) == (State {
            register_a: value,
            status: state.lda(value).status,
            ..state
        }),
{
    lemma_with_zero_negative(state.status, value);
    lemma_bit_seven(value);
}

/// A step at the opcode `0xA9` loads the byte that follows it into the
/// accumulator and leaves the program counter behind that byte.
pub proof fn lemma_step_load_immediate(state: State)
    requires
        !state.halted,
        state.opcode() == 0xA9,
    ensures
        state.step() == state.advance(2).lda(state.read(indexed(state.program_counter, 1))),
        state.fault() is None,
{
}

/// Incrementing a register that holds `0xFF` gives zero and sets Zero;
/// incrementing any other value gives the next value and clears Zero. The
/// same holds of a byte in memory.
pub proof fn lemma_increment(state: State, address: u16)
    requires
        state.wf(),
    ensures
        state.inx().register_x == (if state.register_x == 0xFF {
            0
        } else {
            state.register_x + 1
        }),
        state.inx().flag(Flag::Zero) == (state.register_x == 0xFF),
        state.iny().register_y == (if state.register_y == 0xFF {
            0
        } else {
            state.register_y + 1
        }),
        state.iny().flag(Flag::Zero) == (state.register_y == 0xFF),
        state.inc(address).read(address) == (if state.read(address) == 0xFF {
            0
        } else {
            state.read(address) + 1
        }),
        state.inc(address).flag(Flag::Zero) == (state.read(address) == 0xFF),
{
    lemma_with_zero_negative(state.status, state.inx().register_x);
    lemma_with_zero_negative(state.status, state.iny().register_y);
    lemma_with_zero_negative(state.status, state.inc(address).read(address));
}

/// Decrementing is the inverse of incrementing, for X, for Y and for a byte
/// in memory.
pub proof fn lemma_increment_then_decrement(state: State, address: u16)
    requires
        state.wf(),
    ensures
        state.inx().dex().register_x == state.register_x,
        state.dex().inx().register_x == state.register_x,
        state.iny().dey().register_y == state.register_y,
        state.dey().iny().register_y == state.register_y,
        state.inc(address).dec(address).read(address) == state.read(address),
        state.dec(address).inc(address).read(address) == state.read(address),
{
}

/// Transferring the accumulator to X copies the accumulator, whatever X
/// held before, and takes Zero and Negative from the value that X holds
/// afterwards.
pub proof fn lemma_transfer_accumulator_to_x(state: State, previous: u8)
    ensures
        state.tax().register_x == state.register_a,
        state.tax().register_a == state.register_a,
        (State { register_x: previous, ..state }).tax() == state.tax(),
        state.tax().flag(Flag::Zero) == (state.tax().register_x == 0),
        state.tax().flag(Flag::Negative) == spec_is_negative(state.tax().register_x),
        forall|other: Flag|
            other != Flag::Zero && other != Flag::Negative ==> state.tax().flag(other)
                == state.flag(other),
{
    lemma_with_zero_negative(state.status, state.register_a);
}

/// A byte that was pushed is the byte that the next pull yields, and the
/// pair leaves the stack pointer where it was, also where the stack pointer
/// wraps.
pub proof fn lemma_push_then_pull(state: State, value: u8)
    requires
        state.wf(),
    ensures
        state.push(value).pulled() == value,
        state.push(value).pop().stack_pointer == state.stack_pointer,
        state.push(value).pop() == state.write(state.stack_address(), value),
{
}

/// Pushing the accumulator and pulling it again, or pushing the status byte
/// and pulling it again, gives the register the value that it had and
/// leaves the stack pointer where it was.
pub proof fn lemma_push_pull_registers(state: State)
    requires
        state.wf(),
    ensures
        state.pha().pla().register_a == state.register_a,
        state.pha().pla().stack_pointer == state.stack_pointer,
        state.php().plp().status == state.status,
        state.php().plp().stack_pointer == state.stack_pointer,
        state.php().plp() == state.write(state.stack_address(), state.status),
{
    lemma_push_then_pull(state, state.register_a);
    lemma_push_then_pull(state, state.status);
}

/// Bytes are pulled in the reverse of the order in which they were pushed.
pub proof fn lemma_stack_is_last_in_first_out(state: State, first: u8, second: u8)
    requires
        state.wf(),
    ensures
        state.push(first).push(second).pulled() == second,
        state.push(first).push(second).pop().pulled() == first,
        state.push(first).push(second).pop().pop().stack_pointer == state.stack_pointer,
{
}

/// A return undoes a call: it continues at the program counter that the
/// call was made with, and the stack pointer is where it was before the
/// call.
pub proof fn lemma_call_then_return(state: State, address: u16)
    requires
        state.wf(),
    ensures
        state.jsr(address).program_counter == address,
        state.jsr(address).rts().program_counter == state.program_counter,
        state.jsr(address).rts().stack_pointer == state.stack_pointer,
{
}

/// A branch that is not taken changes nothing; one that is taken changes
/// the program counter only. No branch changes a flag.
pub proof fn lemma_branch(state: State, taken: bool, target: u16)
    ensures
        !taken ==> state.branch(taken, target) == state,
        taken ==> state.branch(taken, target) == (State { program_counter: target, ..state }),
        state.branch(taken, target).status == state.status,
{
}

/// The flag that a branch opcode tests, and the value that makes it branch.
pub open spec fn branch_test(opcode: u8) -> Option<(Flag, bool)> {
    match opcode {
        0x10 => Some((Flag::Negative, false)),
        0x30 => Some((Flag::Negative, true)),
        0x50 => Some((Flag::Overflow, false)),
        0x70 => Some((Flag::Overflow, true)),
        0x90 => Some((Flag::Carry, false)),
        0xB0 => Some((Flag::Carry, true)),
        0xD0 => Some((Flag::Zero, false)),
        0xF0 => Some((Flag::Zero, true)),
        _ => None,
    }
}

/// The branch opcodes are the ones that use relative addressing.
pub proof fn lemma_branch_opcodes(opcode: u8)
    ensures
        branch_test(opcode) is Some <==> (spec_decode(opcode) matches Some(entry) && entry.mode
            == AddressingMode::Relative),
{
}

/// A step at a branch opcode changes the program counter and nothing else.
/// If the branch is not taken, the program counter ends behind the two bytes
/// of the branch instruction. If it is taken, the displacement, read as a
/// signed byte, is added to that address.
pub proof fn lemma_step_branch(state: State)
    requires
        !state.halted,
        branch_test(state.opcode()) is Some,
    ensures
        ({
            let (flag, wanted) = branch_test(state.opcode())->0;
            let next = indexed(state.program_counter, 2);
            let displacement = state.read(indexed(state.program_counter, 1));
            state.step() == (State {
                program_counter: if state.flag(flag) == wanted {
                    branch_target(next, displacement)
                } else {
                    next
                },
                ..state
            })
        }),
        state.fault() is None,
{
}

/// Setting or clearing a flag gives that flag the new value, whatever the
/// state was, and changes no other flag and nothing else.
pub proof fn lemma_set_flag(state: State, flag: Flag, on: bool)
    ensures
        state.with_flag(flag, on).flag(flag) == on,
        forall|other: Flag|
            other != flag ==> state.with_flag(flag, on).flag(other) == state.flag(other),
        state.with_flag(flag, on) == (State { status: state.with_flag(flag, on).status, ..state }),
{
    lemma_with_flag(state.status, flag, on);
}

/// A comparison sets Carry exactly when the register is not below the
/// value and Zero exactly when they are equal, and changes no register and
/// no memory.
pub proof fn lemma_compare(state: State, register: u8, value: u8)
    ensures
        state.compare(register, value).flag(Flag::Carry) == (register >= value),
        state.compare(register, value).flag(Flag::Zero) == (register == value),
        state.compare(register, value) == (State {
            status: state.compare(register, value).status,
            ..state
        }),
{
    let carried = state.with_flag(Flag::Carry, register >= value);
    lemma_with_flag(state.status, Flag::Carry, register >= value);
    lemma_with_zero_negative(carried.status, ((register - value) % 0x100) as u8);
}

/// A step is the dispatcher going once round: from fetching through
/// decoding and executing back to fetching, or into the halt. A halted
/// processor makes no transition that changes anything.
pub proof fn lemma_step_goes_through_the_phases(state: State)
    ensures
        ({
            let (fetched, decoding) = state.transition(state.phase());
            let (decoded, executing) = fetched.transition(decoding);
            let (executed, resting) = decoded.transition(executing);
            executed == state.step() && resting == state.step().phase()
        }),
        state.halted ==> state.transition(state.phase()) == (state, Phase::Halted),
        state.fault() is Some ==> state.step().phase() == Phase::Halted,
{
}

/// Zero and Negative of `state` describe `result`.
pub open spec fn mirrors(state: State, result: u8) -> bool {
    state.flag(Flag::Zero) == (result == 0) && state.flag(Flag::Negative) == spec_is_negative(
        result,
    )
}

/// Wherever an instruction sets Zero and Negative, they describe the value
/// that the instruction produced: Zero says that it is zero, Negative
/// repeats its bit 7. This holds of the register that a load, a transfer, a
/// pull, a logical or an arithmetic instruction wrote, and of the byte that
/// an increment, a decrement, a shift or a rotation stored.
pub proof fn lemma_zero_negative_mirror_the_result(state: State, value: u8, address: u16)
    requires
        state.wf(),
    ensures
        mirrors(state.lda(value), state.lda(value).register_a),
        mirrors(state.ldx(value), state.ldx(value).register_x),
        mirrors(state.ldy(value), state.ldy(value).register_y),
        mirrors(state.tax(), state.tax().register_x),
        mirrors(state.tay(), state.tay().register_y),
        mirrors(state.txa(), state.txa().register_a),
        mirrors(state.tya(), state.tya().register_a),
        mirrors(state.tsx(), state.tsx().register_x),
        mirrors(state.pla(), state.pla().register_a),
        mirrors(state.and(value), state.and(value).register_a),
        mirrors(state.eor(value), state.eor(value).register_a),
        mirrors(state.ora(value), state.ora(value).register_a),
        mirrors(state.adc(value), state.adc(value).register_a),
        mirrors(state.sbc(value), state.sbc(value).register_a),
        mirrors(state.inx(), state.inx().register_x),
        mirrors(state.iny(), state.iny().register_y),
        mirrors(state.dex(), state.dex().register_x),
        mirrors(state.dey(), state.dey().register_y),
        mirrors(state.inc(address), state.inc(address).read(address)),
        mirrors(state.dec(address), state.dec(address).read(address)),
        mirrors(state.asl(Operand::Accumulator), state.asl(Operand::Accumulator).register_a),
        mirrors(state.lsr(Operand::Accumulator), state.lsr(Operand::Accumulator).register_a),
        mirrors(state.rol(Operand::Accumulator), state.rol(Operand::Accumulator).register_a),
        mirrors(state.ror(Operand::Accumulator), state.ror(Operand::Accumulator).register_a),
        mirrors(
            state.asl(Operand::Address(address)),
            state.asl(Operand::Address(address)).read(address),
        ),
        mirrors(
            state.lsr(Operand::Address(address)),
            state.lsr(Operand::Address(address)).read(address),
        ),
        mirrors(
            state.rol(Operand::Address(address)),
            state.rol(Operand::Address(address)).read(address),
        ),
        mirrors(
            state.ror(Operand::Address(address)),
            state.ror(Operand::Address(address)).read(address),
        ),
{
    assert forall|status: u8, result: u8|
        spec_is_set(#[trigger] spec_with_zero_negative(status, result), Flag::Zero) == (result == 0)
            && spec_is_set(spec_with_zero_negative(status, result), Flag::Negative)
            == spec_is_negative(result) by {
        lemma_with_zero_negative(status, result);
    }
}

/// An addition leaves in the accumulator and in Carry the nine bits of
/// `accumulator + value + carry`, and sets Overflow exactly when that sum,
/// taken over the signed operands, does not fit into a byte. A subtraction
/// does the same for `accumulator - value - borrow`, where a clear Carry
/// means a borrow, before and after.
pub proof fn lemma_arithmetic(state: State, value: u8)
    ensures
        state.adc(value).register_a + 0x100 * carry_value(state.adc(value).flag(Flag::Carry))
            == state.register_a + value + carry_value(state.flag(Flag::Carry)),
        state.adc(value).flag(Flag::Overflow) == !fits_signed_byte(
            signed(state.register_a) + signed(value) + carry_value(state.flag(Flag::Carry)),
        ),
        state.sbc(value).register_a - 0x100 * (1 - carry_value(state.sbc(value).flag(Flag::Carry)))
            == state.register_a - value - (1 - carry_value(state.flag(Flag::Carry))),
        state.sbc(value).flag(Flag::Overflow) == !fits_signed_byte(
            signed(state.register_a) - signed(value) - (1 - carry_value(
                state.flag(Flag::Carry),
            )),
        ),
        state.adc(value) == (State {
            register_a: state.adc(value).register_a,
            status: state.adc(value).status,
            ..state
        }),
        state.sbc(value) == (State {
            register_a: state.sbc(value).register_a,
            status: state.sbc(value).status,
            ..state
        }),
{
    lemma_sum_flags(state, spec_add_with_carry(state.register_a, value, state.flag(Flag::Carry)));
    lemma_sum_flags(
        state,
        spec_subtract_with_carry(state.register_a, value, state.flag(Flag::Carry)),
    );
}

/// Storing a sum puts its carry into Carry and its overflow into Overflow.
proof fn lemma_sum_flags(state: State, sum: Sum)
    ensures
        state.with_sum(sum).flag(Flag::Carry) == sum.carry,
        state.with_sum(sum).flag(Flag::Overflow) == sum.overflow,
{
    let stored = State { register_a: sum.value, ..state };
    let carried = stored.with_flag(Flag::Carry, sum.carry);
    let overflowed = carried.with_flag(Flag::Overflow, sum.overflow);
    lemma_with_flag(stored.status, Flag::Carry, sum.carry);
    lemma_with_flag(carried.status, Flag::Overflow, sum.overflow);
    lemma_with_zero_negative(overflowed.status, sum.value);
}

/// A shift or a rotation of the accumulator moves every bit by one place:
/// the bit that leaves goes to Carry, and the bit that enters is zero for a
/// shift and the old Carry for a rotation.
pub proof fn lemma_shift_accumulator(state: State)
    ensures
        state.asl(Operand::Accumulator).register_a + 0x100 * carry_value(
            state.asl(Operand::Accumulator).flag(Flag::Carry),
        ) == 2 * state.register_a,
        2 * state.lsr(Operand::Accumulator).register_a + carry_value(
            state.lsr(Operand::Accumulator).flag(Flag::Carry),
        ) == state.register_a,
        state.rol(Operand::Accumulator).register_a + 0x100 * carry_value(
            state.rol(Operand::Accumulator).flag(Flag::Carry),
        ) == 2 * state.register_a + carry_value(state.flag(Flag::Carry)),
        2 * state.ror(Operand::Accumulator).register_a + carry_value(
            state.ror(Operand::Accumulator).flag(Flag::Carry),
        ) == state.register_a + 0x100 * carry_value(state.flag(Flag::Carry)),
{
    let carry = state.flag(Flag::Carry);
    lemma_shifted_flags(state, Operand::Accumulator, spec_shift_left(state.register_a));
    lemma_shifted_flags(state, Operand::Accumulator, spec_shift_right(state.register_a));
    lemma_shifted_flags(state, Operand::Accumulator, spec_rotate_left(state.register_a, carry));
    lemma_shifted_flags(state, Operand::Accumulator, spec_rotate_right(state.register_a, carry));
}

/// Storing what a shift produced puts the bit that left into Carry.
proof fn lemma_shifted_flags(state: State, operand: Operand, shifted: Shifted)
    ensures
        state.with_shifted(operand, shifted).flag(Flag::Carry) == shifted.carry,
{
    let stored = state.with_operand(operand, shifted.value);
    let carried = stored.with_flag(Flag::Carry, shifted.carry);
    lemma_with_flag(stored.status, Flag::Carry, shifted.carry);
    lemma_with_zero_negative(carried.status, shifted.value);
}

/// A halted processor stays as it is, however long it is run.
pub proof fn lemma_halted_is_terminal(state: State, budget: nat)
    requires
        state.halted,
    ensures
        state.step() == state,
        state.run(budget) == state,
        state.fault() is None,
        state.run_fault(budget) is None,
{
}

/// A step that fails halts the processor behind the byte that it fetched
/// and changes nothing else.
pub proof fn lemma_fault_halts(state: State)
    requires
        state.fault() is Some,
    ensures
        state.step() == (State { halted: true, ..state.advance(1) }),
{
}

/// An instruction that is neither a jump, a call, a return nor a branch
/// leaves the program counter behind its own bytes.
pub proof fn lemma_program_counter_advances(state: State)
    requires
        !state.halted,
        spec_decode(state.opcode()) matches Some(entry) && entry.mode != AddressingMode::Relative
            && entry.operation != Operation::Jump && entry.operation != Operation::JumpSubroutine
            && entry.operation != Operation::ReturnSubroutine && entry.operation
            != Operation::ReturnInterrupt,
    ensures
        state.step().program_counter == indexed(
            state.program_counter,
            spec_decode(state.opcode())->0.length,
        ),
{
    lemma_entry_length(state.opcode());
}

/// A run may be cut in two: running for `first` steps and then for `second`
/// steps ends in the state in which running for `first + second` steps
/// ends.
pub proof fn lemma_run_in_two(state: State, first: nat, second: nat)
    ensures
        state.run(first + second) == state.run(first).run(second),
    decreases first,
{
    if first > 0 && !state.halted {
        lemma_run_in_two(state.step(), (first - 1) as nat, second);
    } else if state.halted {
        lemma_halted_is_terminal(state, second);
    }
}

/// A run that fails ends with the processor halted.
pub proof fn lemma_run_fault_halts(state: State, budget: nat)
    ensures
        state.run_fault(budget) is Some ==> state.run(budget).halted,
    decreases budget,
{
    if budget > 0 && !state.halted {
        if state.fault() is Some {
            lemma_halted_is_terminal(state.step(), (budget - 1) as nat);
        } else {
            lemma_run_fault_halts(state.step(), (budget - 1) as nat);
        }
    }
}

/// After a load the program's bytes stand in memory from the load address
/// on, every other byte is what it was, and the program counter names the
/// program's first byte.
pub proof fn lemma_load(state: State, program: Seq<u8>, address: u16)
    requires
        state.wf(),
        fits(program.len(), address),
    ensures
        state.load(program, address).wf(),
        state.load(program, address).program_counter == address,
        !state.load(program, address).halted,
        forall|i: int|
            0 <= i < program.len() ==> #[trigger] loaded(state.memory, program, address)[address
                + i] == program[i],
        forall|i: int|
            0 <= i < address || address + program.len() <= i < 0x1_0000 ==> #[trigger] loaded(
                state.memory,
                program,
                address,
            )[i] == state.memory[i],
{
}

/// A step keeps memory spanning the whole address space.
pub proof fn lemma_step_keeps_wf(state: State)
    requires
        state.wf(),
    ensures
        state.step().wf(),
{
}

} // verus!
