use vstd::prelude::*;

use crate::cpu::alu::{compose16, extract_bits, read_bits, read_u16};
use crate::cpu::cpu_context::{fetch_spec, CpuContext, Machine};
use crate::cpu::reg_file::RegFile;
use crate::error::EmuError;

verus! {

/// A byte read as a two's-complement offset.
pub open spec fn signed_offset(b: u8) -> int {
    if b < 128 {
        b as int
    } else {
        b - 256
    }
}

/// `pc` moved by the signed offset `b`, wrapping within the address space.
pub open spec fn relative_target(pc: u16, b: u8) -> u16 {
    ((pc + signed_offset(b) + 0x10000) % 0x10000) as u16
}

/// Taking the branch to `target` when the jump is unconditional or the condition in bits 4..3 of
/// `opcode` holds: PC becomes `target` and one more machine cycle passes.
pub open spec fn branch_spec(opcode: u8, conditional: bool, target: u16, m: Machine) -> (
    Machine,
    Result<(), EmuError>,
) {
    match m.regs.condition(extract_bits(opcode, 3, 2)) {
        Err(e) => (m, Err(e)),
        Ok(holds) => if holds || !conditional {
            (
                Machine {
                    regs: RegFile { pc: target, ..m.regs },
                    clock: m.clock.ticked(),
                    ..m
                },
                Ok(()),
            )
        } else {
            (m, Ok(()))
        },
    }
}

/// JP / JR, conditional or not: JP reads a 16-bit target (low byte first), JR a signed offset
/// from the PC after it; `0xC3` and `0x18` always branch.
pub open spec fn jmp_spec(m: Machine, opcode: u8, is_relative: bool) -> (
    Machine,
    Result<(), EmuError>,
) {
    if is_relative {
        let (m1, r) = fetch_spec(m);
        match r {
            Err(e) => (m1, Err(e)),
            Ok(off) => branch_spec(opcode, opcode != 0x18, relative_target(m1.regs.pc, off), m1),
        }
    } else {
        let (m1, r1) = fetch_spec(m);
        match r1 {
            Err(e) => (m1, Err(e)),
            Ok(lo) => {
                let (m2, r2) = fetch_spec(m1);
                match r2 {
                    Err(e) => (m2, Err(e)),
                    Ok(hi) => branch_spec(opcode, opcode != 0xC3, compose16(lo, hi), m2),
                }
            },
        }
    }
}

fn branch(context: &mut CpuContext, opcode: u8, is_conditional: bool, target: u16) -> (r: Result<
    (),
    EmuError,
>)
    requires
        old(context).clock.room(1),
    ensures
        (final(context)@, r) == branch_spec(opcode, is_conditional, target, old(context)@),
        final(context).clock.advanced(old(context).clock, 1),
{
    let holds = match context.registers.match_condition(read_bits(opcode, 3, 2)) {
        Ok(b) => b,
        Err(e) => return Err(e),
    };
    if holds || !is_conditional {
        context.registers.pc = target;
        context.clock.tick();
    }
    Ok(())
}

/// Absolute (`is_relative` false) or relative jump, conditional or not.
pub fn jmp(context: &mut CpuContext, opcode: u8, is_relative: bool) -> (r: Result<(), EmuError>)
    requires
        old(context).clock.room(3),
    ensures
        (final(context)@, r) == jmp_spec(old(context)@, opcode, is_relative),
        final(context).clock.advanced(old(context).clock, 3),
{
    if is_relative {
        let off = match context.fetch() {
            Ok(b) => b,
            Err(e) => return Err(e),
        };
        let pc = context.registers.pc;
        let offset: i32 = if off < 128 {
            off as i32
        } else {
            off as i32 - 256
        };
        let target = ((pc as i32 + offset + 0x10000) % 0x10000) as u16;
        branch(context, opcode, opcode != 0x18, target)
    } else {
        let lo = match context.fetch() {
            Ok(b) => b,
            Err(e) => return Err(e),
        };
        let hi = match context.fetch() {
            Ok(b) => b,
            Err(e) => return Err(e),
        };
        let target = read_u16(&lo, &hi);
        branch(context, opcode, opcode != 0xC3, target)
    }
}

} // verus!
