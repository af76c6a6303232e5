//! Laws of the instruction set, proved over the model.
use vstd::prelude::*;

use crate::addressing::{advanced, resolve, AddressingMode};
use crate::cpu::{step_result, CpuError};
use crate::opcodes::{decode, instruction};
use crate::operations::{add_with_carry, carry_in, jumped, operate, sum_overflows, sum_with_carry, Operation};
use crate::state::{signed, stack_address, wrap16, wrap8, CpuState, Operand};
use crate::status::{
    has_flag, is_flag, lemma_with_flag, lemma_with_nz, with_flag, with_nz, CARRY, NEGATIVE,
    OVERFLOW, UNUSED, ZERO,
};

verus! {

/// The byte from which `op` sets N and Z, for the instructions that set them from a result:
/// the new value of the destination, or for a comparison the difference.
pub open spec fn nz_result(s: CpuState, op: Operation, operand: Operand) -> Option<u8> {
    let t = operate(s, op, operand);
    let m = s.operand_value(operand);
    match op {
        Operation::Adc | Operation::Sbc | Operation::And | Operation::Ora | Operation::Eor
        | Operation::Lda | Operation::Txa | Operation::Tya | Operation::Pla => Some(t.a),
        Operation::Ldx | Operation::Tax | Operation::Tsx | Operation::Inx | Operation::Dex => Some(
            t.x,
        ),
        Operation::Ldy | Operation::Tay | Operation::Iny | Operation::Dey => Some(t.y),
        Operation::Asl | Operation::Lsr | Operation::Rol | Operation::Ror | Operation::Inc
        | Operation::Dec => Some(t.operand_value(operand)),
        Operation::Cmp => Some(wrap8(s.a - m)),
        Operation::Cpx => Some(wrap8(s.x - m)),
        Operation::Cpy => Some(wrap8(s.y - m)),
        _ => None,
    }
}

proof fn lemma_with_nz_everywhere()
    ensures
        forall|bits: u8, value: u8|
            {
                &&& has_flag(#[trigger] with_nz(bits, value), ZERO) == (value == 0)
                &&& has_flag(with_nz(bits, value), NEGATIVE) == (value & 0x80 != 0)
            },
{
    assert forall|bits: u8, value: u8|
        {
            &&& has_flag(#[trigger] with_nz(bits, value), ZERO) == (value == 0)
            &&& has_flag(with_nz(bits, value), NEGATIVE) == (value & 0x80 != 0)
        } by {
        lemma_with_nz(bits, value);
    }
}

/// Every instruction that sets N and Z from a result byte leaves Z set exactly when that
/// byte is zero and N equal to its bit 7.
pub proof fn lemma_nz_follow_result(s: CpuState, op: Operation, operand: Operand)
    requires
        s.wf(),
        nz_result(s, op, operand) is Some,
    ensures
        ({
            let t = operate(s, op, operand);
            let r = nz_result(s, op, operand).unwrap();
            &&& has_flag(t.p, ZERO) == (r == 0)
            &&& has_flag(t.p, NEGATIVE) == (r & 0x80 != 0)
        }),
{
    lemma_with_nz_everywhere();
}

proof fn lemma_sign_agreement(a: u16, m: u16, c: u16, r: u16)
    by (bit_vector)
    requires
        a < 0x100,
        m < 0x100,
        c <= 1,
        r == a + m + c,
    ensures
        ((!(a ^ m) & (a ^ r)) & 0x80 != 0) == ((a & 0x80 == 0 && m & 0x80 == 0 && r & 0x80 != 0)
            || (a & 0x80 != 0 && m & 0x80 != 0 && r & 0x80 == 0)),
{
}

proof fn lemma_bit7(v: u16)
    by (bit_vector)
    requires
        v < 0x200,
    ensures
        (v & 0x80 != 0) == (v % 0x100 >= 0x80),
{
}

/// ADC: A becomes A + M + C modulo 256; C is set exactly when the unsigned sum exceeds 255,
/// and V exactly when the signed sum leaves the range -128..=127.
pub proof fn lemma_adc(s: CpuState, operand: Operand)
    requires
        s.wf(),
    ensures
        ({
            let m = s.operand_value(operand);
            let c = carry_in(s);
            let t = operate(s, Operation::Adc, operand);
            let sum = signed(s.a) + signed(m) + c;
            &&& t.a == (s.a + m + c) % 0x100
            &&& has_flag(t.p, CARRY) == (s.a + m + c > 0xFF)
            &&& has_flag(t.p, OVERFLOW) == (sum < -0x80 || sum > 0x7F)
        }),
{
    let m = s.operand_value(operand);
    lemma_sum(s, m);
}

/// The arithmetic of ADC on an operand byte `m`.
proof fn lemma_sum(s: CpuState, m: u8)
    ensures
        ({
            let c = carry_in(s);
            let u = add_with_carry(s, m);
            let sum = signed(s.a) + signed(m) + c;
            &&& u.a == (s.a + m + c) % 0x100
            &&& has_flag(u.p, CARRY) == (s.a + m + c > 0xFF)
            &&& has_flag(u.p, OVERFLOW) == (sum < -0x80 || sum > 0x7F)
            &&& u.x == s.x && u.y == s.y && u.sp == s.sp && u.pc == s.pc && u.memory == s.memory
        }),
{
    let c = carry_in(s);
    let r = sum_with_carry(s, m);
    let q = with_flag(with_flag(s.p, CARRY, r > 0xFF), OVERFLOW, sum_overflows(s, m));
    lemma_with_flag(s.p, CARRY, r > 0xFF);
    lemma_with_flag(with_flag(s.p, CARRY, r > 0xFF), OVERFLOW, sum_overflows(s, m));
    lemma_with_nz(q, wrap8(r as int));
    lemma_sign_agreement(s.a as u16, m as u16, c, r);
    lemma_bit7(r);
    lemma_bit7(s.a as u16);
    lemma_bit7(m as u16);
}

proof fn lemma_complement(m: u8)
    by (bit_vector)
    ensures
        m ^ 0xFF == 0xFF - m,
{
}

/// SBC with the carry set: A becomes A - M modulo 256, C is set exactly when no borrow
/// occurs (A >= M), and V exactly when the signed difference leaves the range -128..=127.
pub proof fn lemma_sbc(s: CpuState, operand: Operand)
    requires
        s.wf(),
        has_flag(s.p, CARRY),
    ensures
        ({
            let m = s.operand_value(operand);
            let t = operate(s, Operation::Sbc, operand);
            let difference = signed(s.a) - signed(m);
            &&& t.a == (s.a - m) % 0x100
            &&& has_flag(t.p, CARRY) == (s.a >= m)
            &&& has_flag(t.p, OVERFLOW) == (difference < -0x80 || difference > 0x7F)
            &&& (signed(t.a) - difference) % 0x100 == 0
        }),
{
    let m = s.operand_value(operand);
    lemma_complement(m);
    lemma_sum(s, m ^ 0xFF);
}

/// The register that a comparison tests.
pub open spec fn compared_register(s: CpuState, op: Operation) -> u8 {
    match op {
        Operation::Cpx => s.x,
        Operation::Cpy => s.y,
        _ => s.a,
    }
}

proof fn lemma_byte_bit7(v: u8)
    by (bit_vector)
    ensures
        (v & 0x80 != 0) == (v >= 0x80),
{
}

/// CMP, CPX and CPY change no register and no memory, and set the flags as the subtraction
/// register - M would: C when there is no borrow, Z when the two are equal, N from the sign
/// bit of the difference; V is left alone.
pub proof fn lemma_compare(s: CpuState, op: Operation, operand: Operand)
    requires
        s.wf(),
        op == Operation::Cmp || op == Operation::Cpx || op == Operation::Cpy,
    ensures
        ({
            let m = s.operand_value(operand);
            let register = compared_register(s, op);
            let t = operate(s, op, operand);
            &&& t.a == s.a && t.x == s.x && t.y == s.y && t.sp == s.sp && t.pc == s.pc
            &&& t.memory == s.memory
            &&& has_flag(t.p, CARRY) == (register >= m)
            &&& has_flag(t.p, ZERO) == (register == m)
            &&& has_flag(t.p, NEGATIVE) == ((register - m) % 0x100 >= 0x80)
            &&& has_flag(t.p, OVERFLOW) == has_flag(s.p, OVERFLOW)
        }),
{
    let m = s.operand_value(operand);
    let register = compared_register(s, op);
    let q = with_flag(s.p, CARRY, register >= m);
    lemma_with_flag(s.p, CARRY, register >= m);
    lemma_with_nz(q, wrap8(register - m));
    lemma_byte_bit7(wrap8(register - m));
}

/// Pushing a byte and pulling one gives that byte back and restores SP.
pub proof fn lemma_push_pull(s: CpuState, value: u8)
    requires
        s.wf(),
    ensures
        s.push(value).pull_value() == value,
        s.push(value).pulled().sp == s.sp,
{
}

/// PHA followed by PLA gives A back, restores SP, and sets N and Z from A.
pub proof fn lemma_pha_pla(s: CpuState, push_operand: Operand, pull_operand: Operand)
    requires
        s.wf(),
    ensures
        ({
            let t = operate(operate(s, Operation::Pha, push_operand), Operation::Pla, pull_operand);
            &&& t.a == s.a
            &&& t.sp == s.sp
            &&& has_flag(t.p, ZERO) == (s.a == 0)
            &&& has_flag(t.p, NEGATIVE) == (s.a & 0x80 != 0)
        }),
{
    lemma_with_nz(s.p, s.a);
}

/// Pushing a word and pulling one gives that word back and restores SP.
pub proof fn lemma_push_pull_word(s: CpuState, value: u16)
    requires
        s.wf(),
    ensures
        s.push_word(value).pull_word_value() == value,
        s.push_word(value).pulled_word().sp == s.sp,
{
}

/// JSR followed at its destination by RTS returns to the instruction after the JSR, with SP
/// as it was. The destination must not be one of the two stack cells that the JSR writes.
pub proof fn lemma_jsr_rts(s: CpuState)
    requires
        s.wf(),
        s.byte(s.pc) == 0x20,
        s.byte(s.word(wrap16(s.pc + 1))) == 0x60,
        s.word(wrap16(s.pc + 1)) != stack_address(s.sp),
        s.word(wrap16(s.pc + 1)) != stack_address(wrap8(s.sp - 1)),
    ensures
        ({
            let (t, r) = step_result(s);
            let (u, r2) = step_result(t);
            &&& r == Ok::<bool, CpuError>(false)
            &&& t.pc == s.word(wrap16(s.pc + 1))
            &&& r2 == Ok::<bool, CpuError>(false)
            &&& u.pc == wrap16(s.pc + 3)
            &&& u.sp == s.sp
        }),
{
    assert(decode(0x20) == Some(instruction(6, Operation::Jsr, AddressingMode::Absolute))) by {
        reveal(decode);
    }
    assert(decode(0x60) == Some(instruction(6, Operation::Rts, AddressingMode::Implied))) by {
        reveal(decode);
    }
    let target = s.word(wrap16(s.pc + 1));
    let (s2, operand) = resolve(advanced(s, 1), AddressingMode::Absolute);
    assert(operand == Operand::Address(target));
    assert(s2.pc == wrap16(s.pc + 3));
    let return_address = wrap16(s2.pc - 1);
    let pushed = s2.push_word(return_address);
    let t = jumped(pushed, operand);
    assert(step_result(s) == (t, Ok::<bool, CpuError>(false)));
    assert(t.byte(target) == 0x60);
    lemma_push_pull_word(s2, return_address);
    let t1 = advanced(t, 1);
    assert(t1.pull_word_value() == return_address);
    let u = operate(t1, Operation::Rts, Operand::Accumulator);
    assert(step_result(t) == (u, Ok::<bool, CpuError>(false)));
}

proof fn lemma_restored_status_unused(current: u8, pulled: u8)
    by (bit_vector)
    ensures
        ((pulled & !0x10u8) | (current & 0x10u8) | 0x20u8) & 0x20u8 == 0x20u8,
{
}

/// No instruction clears U, the unused status bit.
pub proof fn lemma_unused_stays_set(s: CpuState, op: Operation, operand: Operand)
    requires
        s.wf(),
        has_flag(s.p, UNUSED),
    ensures
        has_flag(operate(s, op, operand).p, UNUSED),
{
    assert forall|bits: u8, flag: u8, on: bool|
        is_flag(flag) && flag != UNUSED implies #[trigger] has_flag(with_flag(bits, flag, on), UNUSED)
        == has_flag(bits, UNUSED) by {
        lemma_with_flag(bits, flag, on);
    }
    assert forall|bits: u8, value: u8| #[trigger]
        has_flag(with_nz(bits, value), UNUSED) == has_flag(bits, UNUSED) by {
        lemma_with_nz(bits, value);
    }
    lemma_restored_status_unused(s.p, s.pull_value());
}

/// The instructions that may change C.
pub open spec fn writes_carry(op: Operation) -> bool {
    match op {
        Operation::Adc | Operation::Sbc | Operation::Cmp | Operation::Cpx | Operation::Cpy
        | Operation::Asl | Operation::Lsr | Operation::Rol | Operation::Ror | Operation::Clc
        | Operation::Sec | Operation::Plp | Operation::Rti => true,
        _ => false,
    }
}

/// The instructions that may change V.
pub open spec fn writes_overflow(op: Operation) -> bool {
    match op {
        Operation::Adc | Operation::Sbc | Operation::Bit | Operation::Clv | Operation::Plp
        | Operation::Rti => true,
        _ => false,
    }
}

/// C and V change only through the instructions that are defined to write them.
pub proof fn lemma_carry_overflow_untouched(s: CpuState, op: Operation, operand: Operand)
    requires
        s.wf(),
    ensures
        !writes_carry(op) ==> has_flag(operate(s, op, operand).p, CARRY) == has_flag(s.p, CARRY),
        !writes_overflow(op) ==> has_flag(operate(s, op, operand).p, OVERFLOW) == has_flag(
            s.p,
            OVERFLOW,
        ),
{
    assert forall|bits: u8, flag: u8, on: bool, other: u8|
        is_flag(flag) && is_flag(other) && flag != other implies #[trigger] has_flag(
        with_flag(bits, flag, on),
        other,
    ) == has_flag(bits, other) by {
        lemma_with_flag(bits, flag, on);
    }
    assert forall|bits: u8, value: u8, other: u8|
        other == CARRY || other == OVERFLOW implies #[trigger] has_flag(with_nz(bits, value), other)
        == has_flag(bits, other) by {
        lemma_with_nz(bits, value);
    }
}

} // verus!
