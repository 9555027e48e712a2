use vstd::prelude::*;

use crate::cpu::alu::{extract_bits, insert_bits, read_bits, write_bits};
use crate::error::EmuError;

verus! {

/// The four hardware variants, each with its own register values at power-on.
#[derive(Clone, Copy, Debug, PartialEq, Eq, Structural)]
pub enum Modes {
    DMG,
    MGB,
    CGB,
    CGBDMG,
}

/// The four condition flags held in the top nibble of F.
#[derive(Clone, Copy, Debug, PartialEq, Eq, Structural)]
pub enum Flag {
    Zero,
    Subtract,
    HalfCarry,
    Carry,
}

const ZERO: u8 = 7;

const SUB: u8 = 6;

const HALFCARRY: u8 = 5;

const CARRY: u8 = 4;

impl Flag {
    /// The bit of F that holds the flag.
    pub open spec fn bit(self) -> u8 {
        match self {
            Flag::Zero => 7,
            Flag::Subtract => 6,
            Flag::HalfCarry => 5,
            Flag::Carry => 4,
        }
    }

    /// The bit of F that holds the flag.
    pub fn bit_index(&self) -> (r: u8)
        ensures
            r == self.bit(),
    {
        match self {
            Flag::Zero => ZERO,
            Flag::Subtract => SUB,
            Flag::HalfCarry => HALFCARRY,
            Flag::Carry => CARRY,
        }
    }
}

/// `1` for true, `0` for false.
pub open spec fn bit_of(b: bool) -> u8 {
    if b {
        1
    } else {
        0
    }
}

/// The eight 8-bit registers, the stack pointer and the program counter.
#[derive(Clone, Copy, Debug, PartialEq, Eq, Structural)]
pub struct RegFile {
    pub a: u8,
    pub b: u8,
    pub c: u8,
    pub d: u8,
    pub e: u8,
    pub f: u8,
    pub h: u8,
    pub l: u8,
    pub sp: u16,
    pub pc: u16,
}

/// The register file at power-on on the given hardware variant.
pub open spec fn initial_registers(mode: Modes) -> RegFile {
    let (a, b, c, d, e, f, h, l) = match mode {
        Modes::DMG => (0x1u8, 0x0u8, 0x13u8, 0x00u8, 0xD8u8, 0xB0u8, 0x1u8, 0x4Du8),
        Modes::MGB => (0xFF, 0x0, 0x13, 0x00, 0xD8, 0xB0, 0x1, 0x4D),
        Modes::CGB => (0x11, 0x0, 0x0, 0xFF, 0x56, 0x80, 0x0, 0xD),
        Modes::CGBDMG => (0x11, 0x0, 0x0, 0x0, 0x8, 0x80, 0x0, 0x7C),
    };
    RegFile { a, b, c, d, e, f, h, l, sp: 0xFFFE, pc: 0x100 }
}

impl RegFile {
    /// The low nibble of F is always zero.
    pub open spec fn wf(self) -> bool {
        self.f & 0x0F == 0
    }

    /// The 16-bit pair H:L.
    pub open spec fn hl(self) -> u16 {
        crate::cpu::alu::compose16(self.l, self.h)
    }

    /// The register that a 3-bit code names: B, C, D, E, H, L, -, A for 0..=7; code 6 and codes
    /// above 7 name none.
    pub open spec fn r8(self, num: u8) -> Result<u8, EmuError> {
        match num {
            0 => Ok(self.b),
            1 => Ok(self.c),
            2 => Ok(self.d),
            3 => Ok(self.e),
            4 => Ok(self.h),
            5 => Ok(self.l),
            7 => Ok(self.a),
            _ => Err(EmuError::InvalidRegisterIndex),
        }
    }

    /// This register file with the register that `num` names set to `v`.
    pub open spec fn with_r8(self, num: u8, v: u8) -> Result<RegFile, EmuError> {
        match num {
            0 => Ok(RegFile { b: v, ..self }),
            1 => Ok(RegFile { c: v, ..self }),
            2 => Ok(RegFile { d: v, ..self }),
            3 => Ok(RegFile { e: v, ..self }),
            4 => Ok(RegFile { h: v, ..self }),
            5 => Ok(RegFile { l: v, ..self }),
            7 => Ok(RegFile { a: v, ..self }),
            _ => Err(EmuError::InvalidRegisterIndex),
        }
    }

    /// Whether `flag` is set in F.
    pub open spec fn flag(self, flag: Flag) -> bool {
        extract_bits(self.f, flag.bit(), 1) == 1
    }

    /// This register file with `flag` set to `v`, the rest of F kept.
    pub open spec fn with_flag(self, flag: Flag, v: bool) -> RegFile {
        RegFile { f: insert_bits(self.f, flag.bit(), 1, bit_of(v)), ..self }
    }

    /// This register file with bits 7..4 of F (Z, N, H, C) set to the low bits of `z`, `n`,
    /// `h`, `c`, and the low nibble of F kept.
    pub open spec fn with_flags(self, z: u8, n: u8, h: u8, c: u8) -> RegFile {
        RegFile {
            f: (self.f & 0x0F) | ((z & 1) << 7u8) | ((n & 1) << 6u8) | ((h & 1) << 5u8) | ((c & 1)
                << 4u8),
            ..self
        }
    }

    /// The condition that a 2-bit code names: NZ, Z, NC, C for 0..=3.
    pub open spec fn condition(self, num: u8) -> Result<bool, EmuError> {
        match num {
            0 => Ok(!self.flag(Flag::Zero)),
            1 => Ok(self.flag(Flag::Zero)),
            2 => Ok(!self.flag(Flag::Carry)),
            3 => Ok(self.flag(Flag::Carry)),
            _ => Err(EmuError::InvalidConditionCode),
        }
    }

    /// The register file at power-on for `mode`, with SP = 0xFFFE and PC = 0x0100.
    pub fn new(mode: Modes) -> (r: RegFile)
        ensures
            r == initial_registers(mode),
            r.wf(),
    {
        let (a, b, c, d, e, f, h, l): (u8, u8, u8, u8, u8, u8, u8, u8) = match mode {
            Modes::DMG => (0x1, 0x0, 0x13, 0x00, 0xD8, 0xB0, 0x1, 0x4D),
            Modes::MGB => (0xFF, 0x0, 0x13, 0x00, 0xD8, 0xB0, 0x1, 0x4D),
            Modes::CGB => (0x11, 0x0, 0x0, 0xFF, 0x56, 0x80, 0x0, 0xD),
            Modes::CGBDMG => (0x11, 0x0, 0x0, 0x0, 0x8, 0x80, 0x0, 0x7C),
        };
        proof {
            assert(0xB0u8 & 0x0F == 0 && 0x80u8 & 0x0F == 0) by (bit_vector);
        }
        RegFile { a, b, c, d, e, f, h, l, sp: 0xFFFE, pc: 0x100 }
    }

    /// The value of the register that the 3-bit code `num` names.
    pub fn match_register(&self, num: u8) -> (r: Result<u8, EmuError>)
        ensures
            r == self.r8(num),
    {
        match num {
            0x0 => Ok(self.b),
            0x1 => Ok(self.c),
            0x2 => Ok(self.d),
            0x3 => Ok(self.e),
            0x4 => Ok(self.h),
            0x5 => Ok(self.l),
            0x7 => Ok(self.a),
            _ => Err(EmuError::InvalidRegisterIndex),
        }
    }

    /// Sets the register that the 3-bit code `num` names; an invalid code changes nothing.
    pub fn set_register(&mut self, num: u8, value: u8) -> (r: Result<(), EmuError>)
        ensures
            match old(self).with_r8(num, value) {
                Ok(n) => r == Ok::<(), EmuError>(()) && *final(self) == n,
                Err(e) => r == Err::<(), EmuError>(e) && *final(self) == *old(self),
            },
    {
        match num {
            0x0 => self.b = value,
            0x1 => self.c = value,
            0x2 => self.d = value,
            0x3 => self.e = value,
            0x4 => self.h = value,
            0x5 => self.l = value,
            0x7 => self.a = value,
            _ => return Err(EmuError::InvalidRegisterIndex),
        }
        Ok(())
    }

    /// Evaluates the condition that the 2-bit code `num` names.
    pub fn match_condition(&self, num: u8) -> (r: Result<bool, EmuError>)
        ensures
            r == self.condition(num),
    {
        match num {
            0x0 => Ok(!self.read_flag(Flag::Zero)),
            0x1 => Ok(self.read_flag(Flag::Zero)),
            0x2 => Ok(!self.read_flag(Flag::Carry)),
            0x3 => Ok(self.read_flag(Flag::Carry)),
            _ => Err(EmuError::InvalidConditionCode),
        }
    }

    /// Whether `flag` is set.
    pub fn read_flag(&self, flag: Flag) -> (r: bool)
        ensures
            r == self.flag(flag),
    {
        let index = flag.bit_index();
        read_bits(self.f, index, 1) == 1
    }

    /// Sets `flag` to `value`, or toggles it when `value` is `None`; the other bits of F are
    /// kept.
    pub fn set_flag(&mut self, flag: Flag, value: Option<bool>) -> (r: Result<(), EmuError>)
        ensures
            r == Ok::<(), EmuError>(()),
            old(self).wf() ==> final(self).wf(),
            *final(self) == old(self).with_flag(
                flag,
                match value {
                    Some(b) => b,
                    None => !old(self).flag(flag),
                },
            ),
    {
        let index = flag.bit_index();
        let bit: bool = match value {
            Some(b) => b,
            None => !self.read_flag(flag),
        };
        let v: u8 = if bit {
            1
        } else {
            0
        };
        let _ = write_bits(&mut self.f, index, 1, v);
        proof {
            let f = old(self).f;
            let m = crate::cpu::alu::low_mask(1);
            assert(m == 1) by (bit_vector)
                requires
                    m == ((1u16 << 1u8 as u16) - 1u16) as u16,
            ;
            assert(f & 0x0F == 0 && 4 <= index <= 7 ==> ((((f as u16) & !(1u16 << index as u16)) | (
            ((v as u16) & 1u16) << index as u16)) as u8) & 0x0F == 0) by (bit_vector);
        }
        Ok(())
    }

    /// Sets all four flags in one step from `[Z, N, H, C]`; each flag takes the low bit of its
    /// entry, and the low nibble of F is kept.
    pub fn set_all_flags(&mut self, flags: &[u8; 4]) -> (r: Result<(), EmuError>)
        ensures
            r == Ok::<(), EmuError>(()),
            old(self).wf() ==> final(self).wf(),
            *final(self) == old(self).with_flags(flags@[0], flags@[1], flags@[2], flags@[3]),
    {
        let z = flags[0];
        let n = flags[1];
        let h = flags[2];
        let c = flags[3];
        self.f = (self.f & 0x0F) | ((z & 1) << 7u8) | ((n & 1) << 6u8) | ((h & 1) << 5u8) | ((c
            & 1) << 4u8);
        assert(*self == old(self).with_flags(z, n, h, c));
        proof {
            lemma_with_flags_wf();
        }
        Ok(())
    }
}

/// Setting the four flags keeps the low nibble of F zero.
pub proof fn lemma_with_flags_wf()
    ensures
        forall|r: RegFile, z: u8, n: u8, h: u8, c: u8|
            r.wf() ==> (#[trigger] r.with_flags(z, n, h, c)).wf(),
{
    assert forall|r: RegFile, z: u8, n: u8, h: u8, c: u8| r.wf() implies (#[trigger] r.with_flags(
        z,
        n,
        h,
        c,
    )).wf() by {
        let f = r.f;
        assert(f & 0x0F == 0 ==> ((f & 0x0F) | ((z & 1) << 7u8) | ((n & 1) << 6u8) | ((h & 1)
            << 5u8) | ((c & 1) << 4u8)) & 0x0F == 0) by (bit_vector);
    }
}

} // verus!
