use vstd::prelude::*;

use crate::cpu::alu::{extract_bits, read_bits};
use crate::cpu::cpu_context::{CpuContext, Machine};
use crate::cpu::operands::{r8_param_spec, R8};
use crate::cpu::reg_file::{bit_of, Flag, RegFile};
use crate::error::EmuError;

verus! {

/// Carry out of the low nibble when adding `v` to `a`.
pub open spec fn half_carry_add(a: u8, v: u8) -> bool {
    (a & 0x0F) + (v & 0x0F) > 0x0F
}

/// Borrow from the high nibble when subtracting `v` from `a`.
pub open spec fn half_carry_sub(a: u8, v: u8) -> bool {
    (a & 0x0F) < (v & 0x0F)
}

/// `a + v` modulo 256.
pub open spec fn add8(a: u8, v: u8) -> u8 {
    ((a + v) % 256) as u8
}

/// `a - v` modulo 256.
pub open spec fn sub8(a: u8, v: u8) -> u8 {
    ((a - v + 256) % 256) as u8
}

/// The byte that an ALU instruction takes as its second operand: the next byte of the
/// instruction stream when `imm` holds, else the register or HL-indirect byte that the low three
/// bits of `opcode` name.
pub open spec fn operand_spec(imm: bool, opcode: u8, m: Machine) -> (Machine, Result<u8, EmuError>) {
    let (m1, p) = r8_param_spec(imm, opcode, 0, m);
    match p {
        Ok(op) => op.read_spec(m1),
        Err(e) => (m1, Err(e)),
    }
}

/// The carry taken in: 1 when bit 3 of `opcode` asks for it (ADC, SBC) and Carry is set, else 0.
pub open spec fn carry_in_bit(opcode: u8, regs: RegFile) -> int {
    if extract_bits(opcode, 3, 1) == 1 && regs.flag(Flag::Carry) {
        1
    } else {
        0
    }
}

/// ADD / ADC: A becomes A + operand + carry-in, modulo 256; Z, N=0, H from the low nibbles
/// and the carry-in, C from the unsigned overflow.
pub open spec fn add_spec(opcode: u8, m: Machine) -> (Machine, Result<(), EmuError>) {
    let (m1, r) = operand_spec(opcode == 0xC6 || opcode == 0xCE, opcode, m);
    match r {
        Err(e) => (m1, Err(e)),
        Ok(src) => {
            let a = m1.regs.a;
            let c = carry_in_bit(opcode, m1.regs);
            let res = ((a + src + c) % 256) as u8;
            let regs = RegFile { a: res, ..m1.regs }.with_flags(
                bit_of(res == 0),
                0,
                bit_of((a & 0x0F) + (src & 0x0F) + c > 0x0F),
                bit_of(a + src + c > 0xFF),
            );
            (Machine { regs, ..m1 }, Ok(()))
        },
    }
}

/// SUB / SBC: A becomes A - operand - carry-in, modulo 256; Z, N=1, H from the low nibbles and
/// the carry-in, C from the unsigned borrow.
pub open spec fn sub_spec(opcode: u8, m: Machine) -> (Machine, Result<(), EmuError>) {
    let (m1, r) = operand_spec(opcode == 0xD6 || opcode == 0xDE, opcode, m);
    match r {
        Err(e) => (m1, Err(e)),
        Ok(src) => {
            let a = m1.regs.a;
            let c = carry_in_bit(opcode, m1.regs);
            let res = ((a - src - c + 512) % 256) as u8;
            let regs = RegFile { a: res, ..m1.regs }.with_flags(
                bit_of(res == 0),
                1,
                bit_of((a & 0x0F) < (src & 0x0F) + c),
                bit_of(a < src + c),
            );
            (Machine { regs, ..m1 }, Ok(()))
        },
    }
}

/// AND: A &= operand; flags Z, 0, 1, 0.
pub open spec fn and_spec(opcode: u8, m: Machine) -> (Machine, Result<(), EmuError>) {
    let (m1, r) = operand_spec(opcode == 0xE6, opcode, m);
    match r {
        Err(e) => (m1, Err(e)),
        Ok(src) => {
            let res = m1.regs.a & src;
            let regs = RegFile { a: res, ..m1.regs }.with_flags(bit_of(res == 0), 0, 1, 0);
            (Machine { regs, ..m1 }, Ok(()))
        },
    }
}

/// XOR: A ^= operand; flags Z, 0, 0, 0.
pub open spec fn xor_spec(opcode: u8, m: Machine) -> (Machine, Result<(), EmuError>) {
    let (m1, r) = operand_spec(opcode == 0xEE, opcode, m);
    match r {
        Err(e) => (m1, Err(e)),
        Ok(src) => {
            let res = m1.regs.a ^ src;
            let regs = RegFile { a: res, ..m1.regs }.with_flags(bit_of(res == 0), 0, 0, 0);
            (Machine { regs, ..m1 }, Ok(()))
        },
    }
}

/// OR: A |= operand; flags Z, 0, 0, 0.
pub open spec fn or_spec(opcode: u8, m: Machine) -> (Machine, Result<(), EmuError>) {
    let (m1, r) = operand_spec(opcode == 0xF6, opcode, m);
    match r {
        Err(e) => (m1, Err(e)),
        Ok(src) => {
            let res = m1.regs.a | src;
            let regs = RegFile { a: res, ..m1.regs }.with_flags(bit_of(res == 0), 0, 0, 0);
            (Machine { regs, ..m1 }, Ok(()))
        },
    }
}

/// CP: the flags of A - operand (Z, 1, H, C); A is kept.
pub open spec fn cp_spec(opcode: u8, m: Machine) -> (Machine, Result<(), EmuError>) {
    let (m1, r) = operand_spec(opcode == 0xFE, opcode, m);
    match r {
        Err(e) => (m1, Err(e)),
        Ok(v) => {
            let a = m1.regs.a;
            let regs = m1.regs.with_flags(
                bit_of(sub8(a, v) == 0),
                1,
                bit_of(half_carry_sub(a, v)),
                bit_of(a < v),
            );
            (Machine { regs, ..m1 }, Ok(()))
        },
    }
}

/// `value` moved by `delta` modulo 256, and whether that carries out of (or borrows into) the
/// low nibble.
pub open spec fn step_value(value: u8, delta: i8) -> (u8, bool) {
    let step = (if delta < 0 { -delta } else { delta as int }) as u8;
    if delta < 0 {
        (sub8(value, step), half_carry_sub(value, step))
    } else {
        (add8(value, step), half_carry_add(value, step))
    }
}

/// INC / DEC by `delta` on the register or HL-indirect byte that bits 5..3 of `opcode` name:
/// the byte is read, the result written back, then Z, N (1 for a negative delta), H are set and
/// C is kept.
pub open spec fn inc_spec(opcode: u8, delta: i8, m: Machine) -> (Machine, Result<(), EmuError>) {
    let (m1, p) = r8_param_spec(false, opcode, 3, m);
    match p {
        Err(e) => (m1, Err(e)),
        Ok(op) => {
            let (m2, r) = op.read_spec(m1);
            match r {
                Err(e) => (m2, Err(e)),
                Ok(value) => {
                    let (res, half) = step_value(value, delta);
                    let (m3, w) = op.write_spec(m2, res);
                    match w {
                        Err(e) => (m3, Err(e)),
                        Ok(_) => {
                            let regs = m3.regs.with_flags(
                                bit_of(res == 0),
                                bit_of(delta < 0),
                                bit_of(half),
                                bit_of(m3.regs.flag(Flag::Carry)),
                            );
                            (Machine { regs, ..m3 }, Ok(()))
                        },
                    }
                },
            }
        },
    }
}

fn operand(imm: bool, opcode: u8, context: &mut CpuContext) -> (r: Result<u8, EmuError>)
    requires
        old(context).clock.room(2),
    ensures
        (final(context)@, r) == operand_spec(imm, opcode, old(context)@),
        final(context).clock.advanced(old(context).clock, 1),
{
    let param = R8::get_r8_param(imm, opcode, 0, context);
    match param {
        Ok(op) => op.read(context),
        Err(e) => Err(e),
    }
}

fn flag_byte(b: bool) -> (r: u8)
    ensures
        r == bit_of(b),
{
    if b {
        1
    } else {
        0
    }
}

fn carry_in(opcode: u8, regs: &RegFile) -> (r: u16)
    ensures
        r == carry_in_bit(opcode, *regs),
{
    if read_bits(opcode, 3, 1) == 1 && regs.read_flag(Flag::Carry) {
        1
    } else {
        0
    }
}

/// ADD A / ADC A with a register, HL-indirect or immediate (`0xC6`, `0xCE`) operand.
pub fn add(opcode: u8, context: &mut CpuContext) -> (r: Result<(), EmuError>)
    requires
        old(context).clock.room(2),
    ensures
        (final(context)@, r) == add_spec(opcode, old(context)@),
        final(context).clock.advanced(old(context).clock, 1),
{
    let src = match operand(opcode == 0xC6 || opcode == 0xCE, opcode, context) {
        Ok(v) => v,
        Err(e) => return Err(e),
    };
    let c = carry_in(opcode, &context.registers);
    let a = context.registers.a;
    let half_carry = (a & 0xF) as u16 + (src & 0xF) as u16 + c > 0xF;
    let sum = a as u16 + src as u16 + c;
    let carry = sum > 0xFF;
    let res = (sum % 256) as u8;
    let zero = res == 0;
    context.registers.a = res;
    let _ = context.registers.set_all_flags(
        &[flag_byte(zero), 0, flag_byte(half_carry), flag_byte(carry)],
    );
    Ok(())
}

/// SUB A / SBC A with a register, HL-indirect or immediate (`0xD6`, `0xDE`) operand.
pub fn sub(opcode: u8, context: &mut CpuContext) -> (r: Result<(), EmuError>)
    requires
        old(context).clock.room(2),
    ensures
        (final(context)@, r) == sub_spec(opcode, old(context)@),
        final(context).clock.advanced(old(context).clock, 1),
{
    let src = match operand(opcode == 0xD6 || opcode == 0xDE, opcode, context) {
        Ok(v) => v,
        Err(e) => return Err(e),
    };
    let c = carry_in(opcode, &context.registers);
    let a = context.registers.a;
    let half_carry = ((a & 0xF) as u16) < (src & 0xF) as u16 + c;
    let carry = (a as u16) < src as u16 + c;
    let res = ((a as u16 + 512 - src as u16 - c) % 256) as u8;
    let zero = res == 0;
    context.registers.a = res;
    let _ = context.registers.set_all_flags(
        &[flag_byte(zero), 1, flag_byte(half_carry), flag_byte(carry)],
    );
    Ok(())
}

/// AND A with a register, HL-indirect or immediate (`0xE6`) operand.
pub fn and(opcode: u8, context: &mut CpuContext) -> (r: Result<(), EmuError>)
    requires
        old(context).clock.room(2),
    ensures
        (final(context)@, r) == and_spec(opcode, old(context)@),
        final(context).clock.advanced(old(context).clock, 1),
{
    let src = match operand(opcode == 0xE6, opcode, context) {
        Ok(v) => v,
        Err(e) => return Err(e),
    };
    context.registers.a = context.registers.a & src;
    let zero = context.registers.a == 0;
    let _ = context.registers.set_all_flags(&[flag_byte(zero), 0, 1, 0]);
    Ok(())
}

/// XOR A with a register, HL-indirect or immediate (`0xEE`) operand.
pub fn xor(opcode: u8, context: &mut CpuContext) -> (r: Result<(), EmuError>)
    requires
        old(context).clock.room(2),
    ensures
        (final(context)@, r) == xor_spec(opcode, old(context)@),
        final(context).clock.advanced(old(context).clock, 1),
{
    let src = match operand(opcode == 0xEE, opcode, context) {
        Ok(v) => v,
        Err(e) => return Err(e),
    };
    context.registers.a = context.registers.a ^ src;
    let zero = context.registers.a == 0;
    let _ = context.registers.set_all_flags(&[flag_byte(zero), 0, 0, 0]);
    Ok(())
}

/// OR A with a register, HL-indirect or immediate (`0xF6`) operand.
pub fn or(opcode: u8, context: &mut CpuContext) -> (r: Result<(), EmuError>)
    requires
        old(context).clock.room(2),
    ensures
        (final(context)@, r) == or_spec(opcode, old(context)@),
        final(context).clock.advanced(old(context).clock, 1),
{
    let src = match operand(opcode == 0xF6, opcode, context) {
        Ok(v) => v,
        Err(e) => return Err(e),
    };
    context.registers.a = context.registers.a | src;
    let zero = context.registers.a == 0;
    let _ = context.registers.set_all_flags(&[flag_byte(zero), 0, 0, 0]);
    Ok(())
}

/// CP A with a register, HL-indirect or immediate (`0xFE`) operand.
pub fn cp(opcode: u8, context: &mut CpuContext) -> (r: Result<(), EmuError>)
    requires
        old(context).clock.room(2),
    ensures
        (final(context)@, r) == cp_spec(opcode, old(context)@),
        final(context).clock.advanced(old(context).clock, 1),
{
    let subtrahend = match operand(opcode == 0xFE, opcode, context) {
        Ok(v) => v,
        Err(e) => return Err(e),
    };
    let a = context.registers.a;
    let half_carry = (a & 0xF) < (subtrahend & 0xF);
    let carry = a < subtrahend;
    let zero = a.wrapping_sub(subtrahend) == 0;
    let _ = context.registers.set_all_flags(
        &[flag_byte(zero), 1, flag_byte(half_carry), flag_byte(carry)],
    );
    Ok(())
}

fn step_byte(value: u8, delta: i8) -> (r: (u8, bool))
    ensures
        r == step_value(value, delta),
{
    if delta < 0 {
        let step = (0 - (delta as i16)) as u8;
        (value.wrapping_sub(step), (value & 0xF) < (step & 0xF))
    } else {
        let step = delta as u8;
        (value.wrapping_add(step), (value & 0xF) as u16 + (step & 0xF) as u16 > 0xF)
    }
}

/// INC / DEC on the register or HL-indirect byte that bits 5..3 of `opcode` name; the
/// HL-indirect form costs one read and one write.
pub fn inc_r8(opcode: u8, context: &mut CpuContext, delta: i8) -> (r: Result<(), EmuError>)
    requires
        old(context).clock.room(2),
    ensures
        (final(context)@, r) == inc_spec(opcode, delta, old(context)@),
        final(context).clock.advanced(old(context).clock, 2),
{
    let param = match R8::get_r8_param(false, opcode, 3, context) {
        Ok(p) => p,
        Err(e) => return Err(e),
    };
    let value = match param.read(context) {
        Ok(v) => v,
        Err(e) => return Err(e),
    };
    let (res, half_carry) = step_byte(value, delta);
    let sub = delta < 0;
    let zero = res == 0;
    match param.write(context, res) {
        Ok(()) => {},
        Err(e) => return Err(e),
    }
    let carry = context.registers.read_flag(Flag::Carry);
    let _ = context.registers.set_all_flags(
        &[flag_byte(zero), flag_byte(sub), flag_byte(half_carry), flag_byte(carry)],
    );
    Ok(())
}

} // verus!
