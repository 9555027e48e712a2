use vstd::prelude::*;

use crate::cpu::alu::{compose16, extract_bits, high_byte, low_byte, read_bits, read_u16, write_u16};
use crate::cpu::cpu_context::{fetch_spec, mem_read, mem_write, CpuContext, Machine};
use crate::cpu::reg_file::RegFile;
use crate::error::EmuError;

verus! {

/// An 8-bit operand: a register named by its 3-bit code, the byte at the address in HL, or an
/// immediate byte taken from the instruction stream.
#[derive(Clone, Copy, Debug, PartialEq, Eq, Structural)]
pub enum R8 {
    Register(u8),
    Hl(u16),
    N8(u8),
}

/// The operand that an instruction names: with `n8`, the next byte of the instruction stream
/// (one fetch); otherwise the 3-bit field of `opcode` at `index`, where 6 stands for the byte at
/// HL.
pub open spec fn r8_param_spec(n8: bool, opcode: u8, index: u8, m: Machine) -> (
    Machine,
    Result<R8, EmuError>,
) {
    if n8 {
        let (m1, r) = fetch_spec(m);
        (
            m1,
            match r {
                Ok(b) => Ok(R8::N8(b)),
                Err(e) => Err(e),
            },
        )
    } else {
        let p = extract_bits(opcode, index, 3);
        if p == 6 {
            (m, Ok(R8::Hl(m.regs.hl())))
        } else {
            (m, Ok(R8::Register(p)))
        }
    }
}

impl R8 {
    /// Reading the operand: a register costs nothing, HL-indirect is one memory read, an
    /// immediate is the byte already fetched.
    pub open spec fn read_spec(self, m: Machine) -> (Machine, Result<u8, EmuError>) {
        match self {
            R8::Register(r) => (m, m.regs.r8(r)),
            R8::Hl(addr) => mem_read(m, addr),
            R8::N8(n) => (m, Ok(n)),
        }
    }

    /// Writing the operand: a register costs nothing, HL-indirect is one memory write, and an
    /// immediate is no destination, so nothing happens.
    pub open spec fn write_spec(self, m: Machine, v: u8) -> (Machine, Result<(), EmuError>) {
        match self {
            R8::Register(r) => match m.regs.with_r8(r, v) {
                Ok(regs) => (Machine { regs, ..m }, Ok(())),
                Err(e) => (m, Err(e)),
            },
            R8::Hl(addr) => mem_write(m, addr, v),
            R8::N8(_) => (m, Ok(())),
        }
    }

    /// Resolves the operand of `opcode` in its 3-bit field at `index`, or takes the next byte
    /// of the instruction stream when `n8` holds.
    pub fn get_r8_param(n8: bool, opcode: u8, index: u8, context: &mut CpuContext) -> (r: Result<
        Self,
        EmuError,
    >)
        requires
            index <= 5,
            old(context).clock.room(1),
        ensures
            (final(context)@, r) == r8_param_spec(n8, opcode, index, old(context)@),
    {
        if n8 {
            return match context.fetch() {
                Ok(b) => Ok(R8::N8(b)),
                Err(e) => Err(e),
            };
        }
        let param = read_bits(opcode, index, 3);
        if param == 6 {
            let addr = read_u16(&context.registers.l, &context.registers.h);
            Ok(R8::Hl(addr))
        } else {
            Ok(R8::Register(param))
        }
    }

    /// Reads the operand's value.
    pub fn read(&self, context: &mut CpuContext) -> (r: Result<u8, EmuError>)
        requires
            old(context).clock.room(1),
        ensures
            (final(context)@, r) == self.read_spec(old(context)@),
    {
        match self {
            R8::Register(reg) => context.registers.match_register(*reg),
            R8::Hl(addr) => context.memory.read(&mut context.clock, *addr),
            R8::N8(n) => Ok(*n),
        }
    }

    /// Writes `value` to the operand.
    pub fn write(&self, context: &mut CpuContext, value: u8) -> (r: Result<(), EmuError>)
        requires
            old(context).clock.room(1),
        ensures
            (final(context)@, r) == self.write_spec(old(context)@, value),
    {
        match self {
            R8::Register(reg) => context.registers.set_register(*reg, value),
            R8::Hl(addr) => context.memory.write(&mut context.clock, *addr, value),
            R8::N8(_) => Ok(()),
        }
    }
}

/// Which register set a 2-bit register-pair code selects from: its code 3 means SP, AF or HL.
#[derive(Clone, Copy, Debug, PartialEq, Eq, Structural)]
pub enum R16Type {
    R16,
    R16Stk,
    R16Mem,
}

/// A 16-bit register: one of the pairs B:C, D:E, H:L, A:F, or SP.
#[derive(Clone, Copy, Debug, PartialEq, Eq, Structural)]
pub enum R16 {
    BC,
    DE,
    HL,
    AF,
    SP,
}

/// The register that the 2-bit field of `opcode` at `index` names in the set `ty`; the field
/// must lie within the byte.
pub open spec fn r16_spec(opcode: u8, index: u8, ty: R16Type) -> Result<R16, EmuError> {
    if index > 6 {
        Err(EmuError::InvalidRegisterIndex)
    } else {
        match extract_bits(opcode, index, 2) {
            0 => Ok(R16::BC),
            1 => Ok(R16::DE),
            2 => Ok(R16::HL),
            _ => match ty {
                R16Type::R16 => Ok(R16::SP),
                R16Type::R16Stk => Ok(R16::AF),
                R16Type::R16Mem => Ok(R16::HL),
            },
        }
    }
}

impl R16 {
    /// The register's value in `regs`.
    pub open spec fn get(self, regs: RegFile) -> u16 {
        match self {
            R16::BC => compose16(regs.c, regs.b),
            R16::DE => compose16(regs.e, regs.d),
            R16::HL => compose16(regs.l, regs.h),
            R16::AF => compose16(regs.f, regs.a),
            R16::SP => regs.sp,
        }
    }

    /// `regs` with the register set to `v`; F keeps its low nibble zero, so AF takes
    /// `v & 0xFFF0`.
    pub open spec fn set(self, regs: RegFile, v: u16) -> RegFile {
        match self {
            R16::BC => RegFile { c: low_byte(v), b: high_byte(v), ..regs },
            R16::DE => RegFile { e: low_byte(v), d: high_byte(v), ..regs },
            R16::HL => RegFile { l: low_byte(v), h: high_byte(v), ..regs },
            R16::AF => RegFile { f: low_byte(v) & 0xF0, a: high_byte(v), ..regs },
            R16::SP => RegFile { sp: v, ..regs },
        }
    }

    /// The register pair that the 2-bit field of `opcode` at `index` names in the set
    /// `r16type`; a field that would reach past bit 7 is refused.
    pub fn new(opcode: u8, index: u8, r16type: R16Type) -> (r: Result<Self, EmuError>)
        ensures
            r == r16_spec(opcode, index, r16type),
    {
        if index > 6 {
            return Err(EmuError::InvalidRegisterIndex);
        }
        let param = read_bits(opcode, index, 2);
        match param {
            0x0 => Ok(R16::BC),
            0x1 => Ok(R16::DE),
            0x2 => Ok(R16::HL),
            _ => match r16type {
                R16Type::R16 => Ok(R16::SP),
                R16Type::R16Stk => Ok(R16::AF),
                R16Type::R16Mem => Ok(R16::HL),
            },
        }
    }

    /// The pair's value, high byte first in the name (B of BC is the high byte).
    pub fn read(&self, reg_file: &RegFile) -> (r: u16)
        ensures
            r == self.get(*reg_file),
    {
        match self {
            R16::BC => read_u16(&reg_file.c, &reg_file.b),
            R16::DE => read_u16(&reg_file.e, &reg_file.d),
            R16::HL => read_u16(&reg_file.l, &reg_file.h),
            R16::AF => read_u16(&reg_file.f, &reg_file.a),
            R16::SP => reg_file.sp,
        }
    }

    /// Sets the pair to `value`; for AF the low nibble of F stays zero.
    pub fn write(&self, value: u16, reg_file: &mut RegFile)
        ensures
            *final(reg_file) == self.set(*old(reg_file), value),
    {
        match self {
            R16::BC => write_u16(&mut reg_file.c, &mut reg_file.b, value),
            R16::DE => write_u16(&mut reg_file.e, &mut reg_file.d, value),
            R16::HL => write_u16(&mut reg_file.l, &mut reg_file.h, value),
            R16::AF => {
                write_u16(&mut reg_file.f, &mut reg_file.a, value);
                reg_file.f = reg_file.f & 0xF0;
            },
            R16::SP => reg_file.sp = value,
        }
    }
}

} // verus!
