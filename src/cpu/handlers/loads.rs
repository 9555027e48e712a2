use vstd::prelude::*;

use crate::cpu::alu::{compose16, extract_bits, read_bits, read_u16};
use crate::cpu::cpu_context::{fetch_spec, mem_read, mem_write, CpuContext, Machine};
use crate::cpu::operands::{r16_spec, r8_param_spec, R16Type, R16, R8};
use crate::cpu::reg_file::RegFile;
use crate::error::EmuError;

verus! {

/// LD r8/[hl], r8/[hl]/n8: the source is the field at bits 2..0 (an immediate byte when bit 6
/// of `opcode` is clear), read first; the destination is the field at bits 5..3.
pub open spec fn load8_spec(m: Machine, opcode: u8) -> (Machine, Result<(), EmuError>) {
    let (m1, sp) = r8_param_spec(extract_bits(opcode, 6, 1) == 0, opcode, 0, m);
    match sp {
        Err(e) => (m1, Err(e)),
        Ok(src) => {
            let (m2, r) = src.read_spec(m1);
            match r {
                Err(e) => (m2, Err(e)),
                Ok(v) => {
                    let (m3, dp) = r8_param_spec(false, opcode, 3, m2);
                    match dp {
                        Err(e) => (m3, Err(e)),
                        Ok(dst) => dst.write_spec(m3, v),
                    }
                },
            }
        },
    }
}

/// LD r16, n16: the pair at bits 5..4 takes the next two bytes, low byte first.
pub open spec fn load16_spec(m: Machine, opcode: u8) -> (Machine, Result<(), EmuError>) {
    match r16_spec(opcode, 4, R16Type::R16) {
        Err(e) => (m, Err(e)),
        Ok(reg) => {
            let (m1, r1) = fetch_spec(m);
            match r1 {
                Err(e) => (m1, Err(e)),
                Ok(lo) => {
                    let (m2, r2) = fetch_spec(m1);
                    match r2 {
                        Err(e) => (m2, Err(e)),
                        Ok(hi) => (
                            Machine { regs: reg.set(m2.regs, compose16(lo, hi)), ..m2 },
                            Ok(()),
                        ),
                    }
                },
            }
        },
    }
}

/// After an access through [HL+] or [HL-] (field values 2 and 3), HL moves by one.
pub open spec fn post_access(regs: RegFile, reg: R16, opcode: u8, addr: u16) -> RegFile {
    let raw = extract_bits(opcode, 4, 2);
    if raw == 2 {
        reg.set(regs, ((addr + 1) % 0x10000) as u16)
    } else if raw == 3 {
        reg.set(regs, ((addr - 1 + 0x10000) % 0x10000) as u16)
    } else {
        regs
    }
}

/// LD [r16mem], A.
pub open spec fn load_r16mem_a_spec(opcode: u8, m: Machine) -> (Machine, Result<(), EmuError>) {
    match r16_spec(opcode, 4, R16Type::R16Mem) {
        Err(e) => (m, Err(e)),
        Ok(reg) => {
            let addr = reg.get(m.regs);
            let (m1, w) = mem_write(m, addr, m.regs.a);
            match w {
                Err(e) => (m1, Err(e)),
                Ok(_) => (
                    Machine { regs: post_access(m1.regs, reg, opcode, addr), ..m1 },
                    Ok(()),
                ),
            }
        },
    }
}

/// LD A, [r16mem].
pub open spec fn load_a_r16mem_spec(opcode: u8, m: Machine) -> (Machine, Result<(), EmuError>) {
    match r16_spec(opcode, 4, R16Type::R16Mem) {
        Err(e) => (m, Err(e)),
        Ok(reg) => {
            let addr = reg.get(m.regs);
            let (m1, r) = mem_read(m, addr);
            match r {
                Err(e) => (m1, Err(e)),
                Ok(v) => (
                    Machine {
                        regs: post_access(RegFile { a: v, ..m1.regs }, reg, opcode, addr),
                        ..m1
                    },
                    Ok(()),
                ),
            }
        },
    }
}

/// LD between 8-bit registers, HL-indirect memory and immediate bytes.
pub fn load8(context: &mut CpuContext, opcode: u8) -> (r: Result<(), EmuError>)
    requires
        old(context).clock.room(3),
    ensures
        (final(context)@, r) == load8_spec(old(context)@, opcode),
        final(context).clock.advanced(old(context).clock, 3),
{
    let src_param = match R8::get_r8_param(read_bits(opcode, 6, 1) == 0, opcode, 0, context) {
        Ok(p) => p,
        Err(e) => return Err(e),
    };
    let src = match src_param.read(context) {
        Ok(v) => v,
        Err(e) => return Err(e),
    };
    let dst_param = match R8::get_r8_param(false, opcode, 3, context) {
        Ok(p) => p,
        Err(e) => return Err(e),
    };
    dst_param.write(context, src)
}

/// LD r16, n16.
pub fn load16(context: &mut CpuContext, opcode: u8) -> (r: Result<(), EmuError>)
    requires
        old(context).clock.room(2),
    ensures
        (final(context)@, r) == load16_spec(old(context)@, opcode),
        final(context).clock.advanced(old(context).clock, 2),
{
    let param = match R16::new(opcode, 4, R16Type::R16) {
        Ok(p) => p,
        Err(e) => return Err(e),
    };
    let lo = match context.fetch() {
        Ok(b) => b,
        Err(e) => return Err(e),
    };
    let hi = match context.fetch() {
        Ok(b) => b,
        Err(e) => return Err(e),
    };
    param.write(read_u16(&lo, &hi), &mut context.registers);
    Ok(())
}

fn after_access(opcode: u8, param: R16, addr: u16, regs: &mut RegFile)
    ensures
        *final(regs) == post_access(*old(regs), param, opcode, addr),
{
    let raw_param = read_bits(opcode, 4, 2);
    if raw_param == 0x2 {
        param.write(addr.wrapping_add(1), regs);
    } else if raw_param == 0x3 {
        param.write(addr.wrapping_sub(1), regs);
    }
}

/// LD [r16mem], A.
pub fn load_r16mem_a(opcode: u8, context: &mut CpuContext) -> (r: Result<(), EmuError>)
    requires
        old(context).clock.room(1),
    ensures
        (final(context)@, r) == load_r16mem_a_spec(opcode, old(context)@),
        final(context).clock.advanced(old(context).clock, 1),
{
    let param = match R16::new(opcode, 4, R16Type::R16Mem) {
        Ok(p) => p,
        Err(e) => return Err(e),
    };
    let addr = param.read(&context.registers);
    let a = context.registers.a;
    match context.memory.write(&mut context.clock, addr, a) {
        Ok(()) => {},
        Err(e) => return Err(e),
    }
    after_access(opcode, param, addr, &mut context.registers);
    Ok(())
}

/// LD A, [r16mem].
pub fn load_a_r16mem(opcode: u8, context: &mut CpuContext) -> (r: Result<(), EmuError>)
    requires
        old(context).clock.room(1),
    ensures
        (final(context)@, r) == load_a_r16mem_spec(opcode, old(context)@),
        final(context).clock.advanced(old(context).clock, 1),
{
    let param = match R16::new(opcode, 4, R16Type::R16Mem) {
        Ok(p) => p,
        Err(e) => return Err(e),
    };
    let addr = param.read(&context.registers);
    let value = match context.memory.read(&mut context.clock, addr) {
        Ok(v) => v,
        Err(e) => return Err(e),
    };
    context.registers.a = value;
    after_access(opcode, param, addr, &mut context.registers);
    Ok(())
}

} // verus!
