//! What each instruction does once its operand is known.
use vstd::prelude::*;

use crate::cpu::CPU;
use crate::state::{wrap16, wrap8, CpuState, Operand};
use crate::status::{
    has_flag, with_flag, with_nz, StatusFlags, BREAK, CARRY, DECIMAL, INTERRUPT_DISABLE,
    NEGATIVE, OVERFLOW, UNUSED, ZERO,
};

verus! {

/// The documented instructions.
#[derive(Clone, Copy, Debug, PartialEq, Eq)]
pub enum Operation {
    Adc,
    And,
    Asl,
    Bcc,
    Bcs,
    Beq,
    Bit,
    Bmi,
    Bne,
    Bpl,
    Brk,
    Bvc,
    Bvs,
    Clc,
    Cld,
    Cli,
    Clv,
    Cmp,
    Cpx,
    Cpy,
    Dec,
    Dex,
    Dey,
    Eor,
    Inc,
    Inx,
    Iny,
    Jmp,
    Jsr,
    Lda,
    Ldx,
    Ldy,
    Lsr,
    Nop,
    Ora,
    Pha,
    Php,
    Pla,
    Plp,
    Rol,
    Ror,
    Rti,
    Rts,
    Sbc,
    Sec,
    Sed,
    Sei,
    Sta,
    Stx,
    Sty,
    Tax,
    Tay,
    Tsx,
    Txa,
    Txs,
    Tya,
}

/// The carry bit as a number.
pub open spec fn carry_in(s: CpuState) -> u16 {
    if has_flag(s.p, CARRY) {
        1
    } else {
        0
    }
}

/// The state with status byte `p`.
pub open spec fn with_status(s: CpuState, p: u8) -> CpuState {
    CpuState { p, ..s }
}

/// A = `value`, N and Z from it.
pub open spec fn loaded_a(s: CpuState, value: u8) -> CpuState {
    CpuState { a: value, p: with_nz(s.p, value), ..s }
}

/// X = `value`, N and Z from it.
pub open spec fn loaded_x(s: CpuState, value: u8) -> CpuState {
    CpuState { x: value, p: with_nz(s.p, value), ..s }
}

/// Y = `value`, N and Z from it.
pub open spec fn loaded_y(s: CpuState, value: u8) -> CpuState {
    CpuState { y: value, p: with_nz(s.p, value), ..s }
}

/// The sum A + `m` + C computed in 16 bits.
pub open spec fn sum_with_carry(s: CpuState, m: u8) -> u16 {
    (s.a as u16 + m as u16 + carry_in(s)) as u16
}

/// Whether A + `m` + C overflows as a signed sum: A and `m` agree in sign and the result
/// does not.
pub open spec fn sum_overflows(s: CpuState, m: u8) -> bool {
    let a = s.a as u16;
    let m = m as u16;
    (!(a ^ m) & (a ^ sum_with_carry(s, m as u8))) & 0x80 != 0
}

/// ADC of `m`: A = A + `m` + C modulo 256, C on unsigned overflow, V on signed overflow.
pub open spec fn add_with_carry(s: CpuState, m: u8) -> CpuState {
    let r = sum_with_carry(s, m);
    let value = wrap8(r as int);
    CpuState {
        a: value,
        p: with_nz(
            with_flag(with_flag(s.p, CARRY, r > 0xFF), OVERFLOW, sum_overflows(s, m)),
            value,
        ),
        ..s
    }
}

/// Compares `register` with `m`: C when `register` >= `m`, N and Z from their difference.
pub open spec fn compared(s: CpuState, register: u8, m: u8) -> CpuState {
    with_status(s, with_nz(with_flag(s.p, CARRY, register >= m), wrap8(register - m)))
}

/// A shift or rotate: `value` is written back through `operand`, C = `carry`, N and Z from
/// `value`.
pub open spec fn shifted(s: CpuState, operand: Operand, value: u8, carry: bool) -> CpuState {
    with_status(s.with_operand(operand, value), with_nz(with_flag(s.p, CARRY, carry), value))
}

/// The program counter set to the operand's address.
pub open spec fn jumped(s: CpuState, operand: Operand) -> CpuState {
    match operand {
        Operand::Address(target) => CpuState { pc: target, ..s },
        Operand::Accumulator => s,
    }
}

/// A branch: jumps when `taken`.
pub open spec fn branched(s: CpuState, taken: bool, operand: Operand) -> CpuState {
    if taken {
        jumped(s, operand)
    } else {
        s
    }
}

/// The status restored from a pulled byte: B keeps its current value and U stays set.
pub open spec fn restored_status(current: u8, pulled: u8) -> u8 {
    (pulled & !BREAK) | (current & BREAK) | UNUSED
}

/// The effect of `op` on `s`, where `s` has the program counter past the operand bytes and
/// `operand` is what the addressing mode named.
pub open spec fn operate(s: CpuState, op: Operation, operand: Operand) -> CpuState {
    let m = s.operand_value(operand);
    match op {
        Operation::Adc => add_with_carry(s, m),
        Operation::Sbc => add_with_carry(s, m ^ 0xFF),
        Operation::And => loaded_a(s, s.a & m),
        Operation::Ora => loaded_a(s, s.a | m),
        Operation::Eor => loaded_a(s, s.a ^ m),
        Operation::Bit => with_status(
            s,
            with_flag(
                with_flag(with_flag(s.p, ZERO, s.a & m == 0), NEGATIVE, m & 0x80 != 0),
                OVERFLOW,
                m & 0x40 != 0,
            ),
        ),
        Operation::Asl => shifted(s, operand, m << 1u8, m & 0x80 != 0),
        Operation::Lsr => shifted(s, operand, m >> 1u8, m & 0x01 != 0),
        Operation::Rol => shifted(s, operand, (m << 1u8) | (carry_in(s) as u8), m & 0x80 != 0),
        Operation::Ror => shifted(
            s,
            operand,
            (m >> 1u8) | (if has_flag(s.p, CARRY) { 0x80u8 } else { 0u8 }),
            m & 0x01 != 0,
        ),
        Operation::Bcc => branched(s, !has_flag(s.p, CARRY), operand),
        Operation::Bcs => branched(s, has_flag(s.p, CARRY), operand),
        Operation::Beq => branched(s, has_flag(s.p, ZERO), operand),
        Operation::Bne => branched(s, !has_flag(s.p, ZERO), operand),
        Operation::Bmi => branched(s, has_flag(s.p, NEGATIVE), operand),
        Operation::Bpl => branched(s, !has_flag(s.p, NEGATIVE), operand),
        Operation::Bvc => branched(s, !has_flag(s.p, OVERFLOW), operand),
        Operation::Bvs => branched(s, has_flag(s.p, OVERFLOW), operand),
        Operation::Brk => with_status(s, with_flag(s.p, INTERRUPT_DISABLE, true)),
        Operation::Clc => with_status(s, with_flag(s.p, CARRY, false)),
        Operation::Cld => with_status(s, with_flag(s.p, DECIMAL, false)),
        Operation::Cli => with_status(s, with_flag(s.p, INTERRUPT_DISABLE, false)),
        Operation::Clv => with_status(s, with_flag(s.p, OVERFLOW, false)),
        Operation::Sec => with_status(s, with_flag(s.p, CARRY, true)),
        Operation::Sed => with_status(s, with_flag(s.p, DECIMAL, true)),
        Operation::Sei => with_status(s, with_flag(s.p, INTERRUPT_DISABLE, true)),
        Operation::Cmp => compared(s, s.a, m),
        Operation::Cpx => compared(s, s.x, m),
        Operation::Cpy => compared(s, s.y, m),
        Operation::Dec => {
            let value = wrap8(m - 1);
            with_status(s.with_operand(operand, value), with_nz(s.p, value))
        },
        Operation::Inc => {
            let value = wrap8(m + 1);
            with_status(s.with_operand(operand, value), with_nz(s.p, value))
        },
        Operation::Dex => loaded_x(s, wrap8(s.x - 1)),
        Operation::Dey => loaded_y(s, wrap8(s.y - 1)),
        Operation::Inx => loaded_x(s, wrap8(s.x + 1)),
        Operation::Iny => loaded_y(s, wrap8(s.y + 1)),
        Operation::Jmp => jumped(s, operand),
        Operation::Jsr => jumped(s.push_word(wrap16(s.pc - 1)), operand),
        Operation::Rts => CpuState { pc: wrap16(s.pull_word_value() + 1), ..s.pulled_word() },
        Operation::Rti => {
            let t = s.pulled();
            CpuState {
                p: restored_status(s.p, s.pull_value()),
                pc: t.pull_word_value(),
                ..t.pulled_word()
            }
        },
        Operation::Lda => loaded_a(s, m),
        Operation::Ldx => loaded_x(s, m),
        Operation::Ldy => loaded_y(s, m),
        Operation::Nop => s,
        Operation::Pha => s.push(s.a),
        Operation::Php => s.push(s.p | BREAK | UNUSED),
        Operation::Pla => loaded_a(s.pulled(), s.pull_value()),
        Operation::Plp => with_status(s.pulled(), restored_status(s.p, s.pull_value())),
        Operation::Sta => s.with_operand(operand, s.a),
        Operation::Stx => s.with_operand(operand, s.x),
        Operation::Sty => s.with_operand(operand, s.y),
        Operation::Tax => loaded_x(s, s.a),
        Operation::Tay => loaded_y(s, s.a),
        Operation::Tsx => loaded_x(s, s.sp),
        Operation::Txa => loaded_a(s, s.x),
        Operation::Tya => loaded_a(s, s.y),
        Operation::Txs => CpuState { sp: s.x, ..s },
    }
}

impl CPU {
    fn update_zero_flag(&mut self, value: u8)
        ensures
            final(self)@ == with_status(old(self)@, with_flag(old(self)@.p, ZERO, value == 0)),
    {
        self.status.set(ZERO, value == 0);
    }

    fn update_negative_flag(&mut self, value: u8)
        ensures
            final(self)@ == with_status(
                old(self)@,
                with_flag(old(self)@.p, NEGATIVE, value & 0x80 != 0),
            ),
    {
        self.status.set(NEGATIVE, value & 0x80 != 0);
    }

    fn set_carry_flag(&mut self, on: bool)
        ensures
            final(self)@ == with_status(old(self)@, with_flag(old(self)@.p, CARRY, on)),
    {
        self.status.set(CARRY, on);
    }

    fn set_overflow_flag(&mut self, on: bool)
        ensures
            final(self)@ == with_status(old(self)@, with_flag(old(self)@.p, OVERFLOW, on)),
    {
        self.status.set(OVERFLOW, on);
    }

    /// Sets N and Z from `value`.
    fn update_nz(&mut self, value: u8)
        ensures
            final(self)@ == with_status(old(self)@, with_nz(old(self)@.p, value)),
    {
        self.update_zero_flag(value);
        self.update_negative_flag(value);
    }

    fn add_with_carry(&mut self, m: u8)
        ensures
            final(self)@ == add_with_carry(old(self)@, m),
    {
        let a = self.registers.a as u16;
        let m = m as u16;
        let c: u16 = if self.status.contains(CARRY) {
            1
        } else {
            0
        };
        let result = a + m + c;
        let value = (result % 0x100) as u8;
        let overflow = (!(a ^ m) & (a ^ result)) & 0x80 != 0;
        self.registers.a = value;
        self.set_carry_flag(result > 0xFF);
        self.set_overflow_flag(overflow);
        self.update_nz(value);
    }

    fn compare(&mut self, register: u8, m: u8)
        ensures
            final(self)@ == compared(old(self)@, register, m),
    {
        let value = register.wrapping_sub(m);
        self.set_carry_flag(register >= m);
        self.update_nz(value);
    }

    fn branch(&mut self, taken: bool, operand: Operand)
        ensures
            final(self)@ == branched(old(self)@, taken, operand),
    {
        if taken {
            self.jump(operand);
        }
    }

    fn jump(&mut self, operand: Operand)
        ensures
            final(self)@ == jumped(old(self)@, operand),
    {
        if let Operand::Address(target) = operand {
            self.registers.pc = target;
        }
    }

    fn restore_status(&mut self, pulled: u8)
        ensures
            final(self)@ == with_status(old(self)@, restored_status(old(self)@.p, pulled)),
    {
        let current = self.status.bits();
        self.status = StatusFlags::from_bits((pulled & !BREAK) | (current & BREAK) | UNUSED);
    }

    fn adc(&mut self, operand: Operand)
        ensures
            final(self)@ == operate(old(self)@, Operation::Adc, operand),
    {
        let m = self.read_operand(operand);
        self.add_with_carry(m);
    }

    fn sbc(&mut self, operand: Operand)
        ensures
            final(self)@ == operate(old(self)@, Operation::Sbc, operand),
    {
        let m = self.read_operand(operand);
        self.add_with_carry(m ^ 0xFF);
    }

    fn and(&mut self, operand: Operand)
        ensures
            final(self)@ == operate(old(self)@, Operation::And, operand),
    {
        let value = self.registers.a & self.read_operand(operand);
        self.registers.a = value;
        self.update_nz(value);
    }

    fn ora(&mut self, operand: Operand)
        ensures
            final(self)@ == operate(old(self)@, Operation::Ora, operand),
    {
        let value = self.registers.a | self.read_operand(operand);
        self.registers.a = value;
        self.update_nz(value);
    }

    fn eor(&mut self, operand: Operand)
        ensures
            final(self)@ == operate(old(self)@, Operation::Eor, operand),
    {
        let value = self.registers.a ^ self.read_operand(operand);
        self.registers.a = value;
        self.update_nz(value);
    }

    fn bit(&mut self, operand: Operand)
        ensures
            final(self)@ == operate(old(self)@, Operation::Bit, operand),
    {
        let value = self.read_operand(operand);
        let result = self.registers.a & value;
        self.update_zero_flag(result);
        self.update_negative_flag(value);
        self.set_overflow_flag(value & 0x40 != 0);
    }

    fn asl(&mut self, operand: Operand)
        ensures
            final(self)@ == operate(old(self)@, Operation::Asl, operand),
    {
        let m = self.read_operand(operand);
        let value = m << 1u8;
        self.write_operand(operand, value);
        self.set_carry_flag(m & 0x80 != 0);
        self.update_nz(value);
    }

    fn lsr(&mut self, operand: Operand)
        ensures
            final(self)@ == operate(old(self)@, Operation::Lsr, operand),
    {
        let m = self.read_operand(operand);
        let value = m >> 1u8;
        self.write_operand(operand, value);
        self.set_carry_flag(m & 0x01 != 0);
        self.update_nz(value);
    }

    fn rol(&mut self, operand: Operand)
        ensures
            final(self)@ == operate(old(self)@, Operation::Rol, operand),
    {
        let m = self.read_operand(operand);
        let carry: u8 = if self.status.contains(CARRY) {
            1
        } else {
            0
        };
        let value = (m << 1u8) | carry;
        self.write_operand(operand, value);
        self.set_carry_flag(m & 0x80 != 0);
        self.update_nz(value);
    }

    fn ror(&mut self, operand: Operand)
        ensures
            final(self)@ == operate(old(self)@, Operation::Ror, operand),
    {
        let m = self.read_operand(operand);
        let carry: u8 = if self.status.contains(CARRY) {
            0x80
        } else {
            0
        };
        let value = (m >> 1u8) | carry;
        self.write_operand(operand, value);
        self.set_carry_flag(m & 0x01 != 0);
        self.update_nz(value);
    }

    fn bcc(&mut self, operand: Operand)
        ensures
            final(self)@ == operate(old(self)@, Operation::Bcc, operand),
    {
        let taken = !self.status.contains(CARRY);
        self.branch(taken, operand);
    }

    fn bcs(&mut self, operand: Operand)
        ensures
            final(self)@ == operate(old(self)@, Operation::Bcs, operand),
    {
        let taken = self.status.contains(CARRY);
        self.branch(taken, operand);
    }

    fn beq(&mut self, operand: Operand)
        ensures
            final(self)@ == operate(old(self)@, Operation::Beq, operand),
    {
        let taken = self.status.contains(ZERO);
        self.branch(taken, operand);
    }

    fn bne(&mut self, operand: Operand)
        ensures
            final(self)@ == operate(old(self)@, Operation::Bne, operand),
    {
        let taken = !self.status.contains(ZERO);
        self.branch(taken, operand);
    }

    fn bmi(&mut self, operand: Operand)
        ensures
            final(self)@ == operate(old(self)@, Operation::Bmi, operand),
    {
        let taken = self.status.contains(NEGATIVE);
        self.branch(taken, operand);
    }

    fn bpl(&mut self, operand: Operand)
        ensures
            final(self)@ == operate(old(self)@, Operation::Bpl, operand),
    {
        let taken = !self.status.contains(NEGATIVE);
        self.branch(taken, operand);
    }

    fn bvc(&mut self, operand: Operand)
        ensures
            final(self)@ == operate(old(self)@, Operation::Bvc, operand),
    {
        let taken = !self.status.contains(OVERFLOW);
        self.branch(taken, operand);
    }

    fn bvs(&mut self, operand: Operand)
        ensures
            final(self)@ == operate(old(self)@, Operation::Bvs, operand),
    {
        let taken = self.status.contains(OVERFLOW);
        self.branch(taken, operand);
    }

    fn brk(&mut self)
        ensures
            final(self)@ == operate(old(self)@, Operation::Brk, Operand::Accumulator),
    {
        self.status.insert(INTERRUPT_DISABLE);
    }

    fn clc(&mut self)
        ensures
            final(self)@ == operate(old(self)@, Operation::Clc, Operand::Accumulator),
    {
        self.status.remove(CARRY);
    }

    fn cld(&mut self)
        ensures
            final(self)@ == operate(old(self)@, Operation::Cld, Operand::Accumulator),
    {
        self.status.remove(DECIMAL);
    }

    fn cli(&mut self)
        ensures
            final(self)@ == operate(old(self)@, Operation::Cli, Operand::Accumulator),
    {
        self.status.remove(INTERRUPT_DISABLE);
    }

    fn clv(&mut self)
        ensures
            final(self)@ == operate(old(self)@, Operation::Clv, Operand::Accumulator),
    {
        self.status.remove(OVERFLOW);
    }

    fn sec(&mut self)
        ensures
            final(self)@ == operate(old(self)@, Operation::Sec, Operand::Accumulator),
    {
        self.status.insert(CARRY);
    }

    fn sed(&mut self)
        ensures
            final(self)@ == operate(old(self)@, Operation::Sed, Operand::Accumulator),
    {
        self.status.insert(DECIMAL);
    }

    fn sei(&mut self)
        ensures
            final(self)@ == operate(old(self)@, Operation::Sei, Operand::Accumulator),
    {
        self.status.insert(INTERRUPT_DISABLE);
    }

    fn cmp(&mut self, operand: Operand)
        ensures
            final(self)@ == operate(old(self)@, Operation::Cmp, operand),
    {
        let m = self.read_operand(operand);
        self.compare(self.registers.a, m);
    }

    fn cpx(&mut self, operand: Operand)
        ensures
            final(self)@ == operate(old(self)@, Operation::Cpx, operand),
    {
        let m = self.read_operand(operand);
        self.compare(self.registers.x, m);
    }

    fn cpy(&mut self, operand: Operand)
        ensures
            final(self)@ == operate(old(self)@, Operation::Cpy, operand),
    {
        let m = self.read_operand(operand);
        self.compare(self.registers.y, m);
    }

    fn dec(&mut self, operand: Operand)
        ensures
            final(self)@ == operate(old(self)@, Operation::Dec, operand),
    {
        let value = self.read_operand(operand).wrapping_sub(1);
        self.write_operand(operand, value);
        self.update_nz(value);
    }

    fn inc(&mut self, operand: Operand)
        ensures
            final(self)@ == operate(old(self)@, Operation::Inc, operand),
    {
        let value = self.read_operand(operand).wrapping_add(1);
        self.write_operand(operand, value);
        self.update_nz(value);
    }

    fn dex(&mut self)
        ensures
            final(self)@ == operate(old(self)@, Operation::Dex, Operand::Accumulator),
    {
        let value = self.registers.x.wrapping_sub(1);
        self.registers.x = value;
        self.update_nz(value);
    }

    fn dey(&mut self)
        ensures
            final(self)@ == operate(old(self)@, Operation::Dey, Operand::Accumulator),
    {
        let value = self.registers.y.wrapping_sub(1);
        self.registers.y = value;
        self.update_nz(value);
    }

    fn inx(&mut self)
        ensures
            final(self)@ == operate(old(self)@, Operation::Inx, Operand::Accumulator),
    {
        let value = self.registers.x.wrapping_add(1);
        self.registers.x = value;
        self.update_nz(value);
    }

    fn iny(&mut self)
        ensures
            final(self)@ == operate(old(self)@, Operation::Iny, Operand::Accumulator),
    {
        let value = self.registers.y.wrapping_add(1);
        self.registers.y = value;
        self.update_nz(value);
    }

    fn jmp(&mut self, operand: Operand)
        ensures
            final(self)@ == operate(old(self)@, Operation::Jmp, operand),
    {
        self.jump(operand);
    }

    fn jsr(&mut self, operand: Operand)
        ensures
            final(self)@ == operate(old(self)@, Operation::Jsr, operand),
    {
        let return_address = self.registers.pc.wrapping_sub(1);
        self.push_word(return_address);
        self.jump(operand);
    }

    fn rts(&mut self)
        ensures
            final(self)@ == operate(old(self)@, Operation::Rts, Operand::Accumulator),
    {
        let return_address = self.pull_word();
        self.registers.pc = return_address.wrapping_add(1);
    }

    fn rti(&mut self)
        ensures
            final(self)@ == operate(old(self)@, Operation::Rti, Operand::Accumulator),
    {
        let pulled = self.pull();
        self.restore_status(pulled);
        self.registers.pc = self.pull_word();
    }

    fn lda(&mut self, operand: Operand)
        ensures
            final(self)@ == operate(old(self)@, Operation::Lda, operand),
    {
        let value = self.read_operand(operand);
        self.registers.a = value;
        self.update_nz(value);
    }

    fn ldx(&mut self, operand: Operand)
        ensures
            final(self)@ == operate(old(self)@, Operation::Ldx, operand),
    {
        let value = self.read_operand(operand);
        self.registers.x = value;
        self.update_nz(value);
    }

    fn ldy(&mut self, operand: Operand)
        ensures
            final(self)@ == operate(old(self)@, Operation::Ldy, operand),
    {
        let value = self.read_operand(operand);
        self.registers.y = value;
        self.update_nz(value);
    }

    fn nop(&mut self)
        ensures
            final(self)@ == operate(old(self)@, Operation::Nop, Operand::Accumulator),
    {
    }

    fn pha(&mut self)
        ensures
            final(self)@ == operate(old(self)@, Operation::Pha, Operand::Accumulator),
    {
        self.push(self.registers.a);
    }

    fn php(&mut self)
        ensures
            final(self)@ == operate(old(self)@, Operation::Php, Operand::Accumulator),
    {
        self.push(self.status.bits() | BREAK | UNUSED);
    }

    fn pla(&mut self)
        ensures
            final(self)@ == operate(old(self)@, Operation::Pla, Operand::Accumulator),
    {
        let value = self.pull();
        self.registers.a = value;
        self.update_nz(value);
    }

    fn plp(&mut self)
        ensures
            final(self)@ == operate(old(self)@, Operation::Plp, Operand::Accumulator),
    {
        let pulled = self.pull();
        self.restore_status(pulled);
    }

    fn sta(&mut self, operand: Operand)
        ensures
            final(self)@ == operate(old(self)@, Operation::Sta, operand),
    {
        self.write_operand(operand, self.registers.a);
    }

    fn stx(&mut self, operand: Operand)
        ensures
            final(self)@ == operate(old(self)@, Operation::Stx, operand),
    {
        self.write_operand(operand, self.registers.x);
    }

    fn sty(&mut self, operand: Operand)
        ensures
            final(self)@ == operate(old(self)@, Operation::Sty, operand),
    {
        self.write_operand(operand, self.registers.y);
    }

    fn tax(&mut self)
        ensures
            final(self)@ == operate(old(self)@, Operation::Tax, Operand::Accumulator),
    {
        let value = self.registers.a;
        self.registers.x = value;
        self.update_nz(value);
    }

    fn tay(&mut self)
        ensures
            final(self)@ == operate(old(self)@, Operation::Tay, Operand::Accumulator),
    {
        let value = self.registers.a;
        self.registers.y = value;
        self.update_nz(value);
    }

    fn tsx(&mut self)
        ensures
            final(self)@ == operate(old(self)@, Operation::Tsx, Operand::Accumulator),
    {
        let value = self.registers.sp;
        self.registers.x = value;
        self.update_nz(value);
    }

    fn txa(&mut self)
        ensures
            final(self)@ == operate(old(self)@, Operation::Txa, Operand::Accumulator),
    {
        let value = self.registers.x;
        self.registers.a = value;
        self.update_nz(value);
    }

    fn tya(&mut self)
        ensures
            final(self)@ == operate(old(self)@, Operation::Tya, Operand::Accumulator),
    {
        let value = self.registers.y;
        self.registers.a = value;
        self.update_nz(value);
    }

    fn txs(&mut self)
        ensures
            final(self)@ == operate(old(self)@, Operation::Txs, Operand::Accumulator),
    {
        self.registers.sp = self.registers.x;
    }

    /// Carries out `op` on `operand`.
    pub(crate) fn execute(&mut self, op: Operation, operand: Operand)
        ensures
            final(self)@ == operate(old(self)@, op, operand),
    {
        match op {
            Operation::Adc => self.adc(operand),
            Operation::And => self.and(operand),
            Operation::Asl => self.asl(operand),
            Operation::Bcc => self.bcc(operand),
            Operation::Bcs => self.bcs(operand),
            Operation::Beq => self.beq(operand),
            Operation::Bit => self.bit(operand),
            Operation::Bmi => self.bmi(operand),
            Operation::Bne => self.bne(operand),
            Operation::Bpl => self.bpl(operand),
            Operation::Brk => self.brk(),
            Operation::Bvc => self.bvc(operand),
            Operation::Bvs => self.bvs(operand),
            Operation::Clc => self.clc(),
            Operation::Cld => self.cld(),
            Operation::Cli => self.cli(),
            Operation::Clv => self.clv(),
            Operation::Cmp => self.cmp(operand),
            Operation::Cpx => self.cpx(operand),
            Operation::Cpy => self.cpy(operand),
            Operation::Dec => self.dec(operand),
            Operation::Dex => self.dex(),
            Operation::Dey => self.dey(),
            Operation::Eor => self.eor(operand),
            Operation::Inc => self.inc(operand),
            Operation::Inx => self.inx(),
            Operation::Iny => self.iny(),
            Operation::Jmp => self.jmp(operand),
            Operation::Jsr => self.jsr(operand),
            Operation::Lda => self.lda(operand),
            Operation::Ldx => self.ldx(operand),
            Operation::Ldy => self.ldy(operand),
            Operation::Lsr => self.lsr(operand),
            Operation::Nop => self.nop(),
            Operation::Ora => self.ora(operand),
            Operation::Pha => self.pha(),
            Operation::Php => self.php(),
            Operation::Pla => self.pla(),
            Operation::Plp => self.plp(),
            Operation::Rol => self.rol(operand),
            Operation::Ror => self.ror(operand),
            Operation::Rti => self.rti(),
            Operation::Rts => self.rts(),
            Operation::Sbc => self.sbc(operand),
            Operation::Sec => self.sec(),
            Operation::Sed => self.sed(),
            Operation::Sei => self.sei(),
            Operation::Sta => self.sta(operand),
            Operation::Stx => self.stx(operand),
            Operation::Sty => self.sty(operand),
            Operation::Tax => self.tax(),
            Operation::Tay => self.tay(),
            Operation::Tsx => self.tsx(),
            Operation::Txa => self.txa(),
            Operation::Txs => self.txs(),
            Operation::Tya => self.tya(),
        }
    }
}

} // verus!
