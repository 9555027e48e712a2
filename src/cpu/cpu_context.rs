use vstd::prelude::*;

use crate::cpu::alu::{extract_bits, read_u16};
use crate::cpu::clock::Clock;
use crate::cpu::handlers::arithmetic::{
    self, add_spec, and_spec, cp_spec, inc_spec, or_spec, sub_spec, xor_spec,
};
use crate::cpu::handlers::jumps::{self, jmp_spec};
use crate::cpu::handlers::loads::{self, load8_spec};
use crate::cpu::invariants::lemma_steps_keep_wf;
use crate::cpu::reg_file::RegFile;
use crate::error::EmuError;
use crate::mem::map::{MemState, MemoryMap};

verus! {

/// The whole observable state of the core: registers, memory and clock.
pub ghost struct Machine {
    pub regs: RegFile,
    pub mem: MemState,
    pub clock: Clock,
}

impl Machine {
    /// The invariants of the data model: the low nibble of F is zero, the memory map has its
    /// full shape, and the sub-cycle count is four times the machine-cycle count.
    pub open spec fn wf(self) -> bool {
        &&& self.regs.wf()
        &&& self.mem.wf()
        &&& self.clock.wf()
    }
}

/// The program counter after one more byte; it wraps at the top of the address space.
pub open spec fn next_pc(pc: u16) -> u16 {
    ((pc + 1) % 0x10000) as u16
}

/// A memory read at `addr`: one machine cycle, and the byte or the failure.
pub open spec fn mem_read(m: Machine, addr: u16) -> (Machine, Result<u8, EmuError>) {
    (Machine { clock: m.clock.ticked(), ..m }, m.mem.read(addr))
}

/// A memory write of `v` at `addr`: one machine cycle; memory changes only on success.
pub open spec fn mem_write(m: Machine, addr: u16, v: u8) -> (Machine, Result<(), EmuError>) {
    match m.mem.write(addr, v) {
        Ok(mem) => (Machine { mem, clock: m.clock.ticked(), ..m }, Ok(())),
        Err(e) => (Machine { clock: m.clock.ticked(), ..m }, Err(e)),
    }
}

/// Reading the byte at PC: one machine cycle, and PC moves past the byte when the read
/// succeeds.
pub open spec fn fetch_spec(m: Machine) -> (Machine, Result<u8, EmuError>) {
    match m.mem.read(m.regs.pc) {
        Ok(b) => (
            Machine {
                regs: RegFile { pc: next_pc(m.regs.pc), ..m.regs },
                clock: m.clock.ticked(),
                ..m
            },
            Ok(b),
        ),
        Err(e) => (Machine { clock: m.clock.ticked(), ..m }, Err(e)),
    }
}

/// The instruction group that an opcode belongs to.
#[derive(Clone, Copy, Debug, PartialEq, Eq, Structural)]
pub enum Instruction {
    Nop,
    Jump,
    JumpRelative,
    JumpHl,
    Load8,
    Add,
    Sub,
    And,
    Xor,
    Or,
    Cp,
    Inc,
    Dec,
    Illegal,
    Unsupported,
}

/// The group of each opcode: NOP; JP cc/JP; JR cc/JR; JP HL; LD r8 / [hl] (0x40-0x7F);
/// ADD/ADC, SUB/SBC, AND, XOR, OR, CP on r8, [hl] and n8; INC and DEC on r8 and [hl]; the
/// eleven illegal opcodes; every other opcode is not covered yet.
pub open spec fn decode_spec(op: u8) -> Instruction {
    if op == 0x00 {
        Instruction::Nop
    } else if op == 0xC2 || op == 0xD2 || op == 0xCA || op == 0xDA || op == 0xC3 {
        Instruction::Jump
    } else if op == 0x20 || op == 0x30 || op == 0x28 || op == 0x38 || op == 0x18 {
        Instruction::JumpRelative
    } else if op == 0xE9 {
        Instruction::JumpHl
    } else if 0x40 <= op <= 0x7F {
        Instruction::Load8
    } else if (0x80 <= op <= 0x8F) || op == 0xC6 || op == 0xCE {
        Instruction::Add
    } else if (0x90 <= op <= 0x9F) || op == 0xD6 || op == 0xDE {
        Instruction::Sub
    } else if (0xA0 <= op <= 0xA7) || op == 0xE6 {
        Instruction::And
    } else if (0xA8 <= op <= 0xAF) || op == 0xEE {
        Instruction::Xor
    } else if (0xB0 <= op <= 0xB7) || op == 0xF6 {
        Instruction::Or
    } else if (0xB8 <= op <= 0xBF) || op == 0xFE {
        Instruction::Cp
    } else if op == 0x04 || op == 0x14 || op == 0x24 || op == 0x34 || op == 0x0C || op == 0x1C
        || op == 0x2C || op == 0x3C {
        Instruction::Inc
    } else if op == 0x05 || op == 0x15 || op == 0x25 || op == 0x35 || op == 0x0D || op == 0x1D
        || op == 0x2D || op == 0x3D {
        Instruction::Dec
    } else if op == 0xD3 || op == 0xDB || op == 0xDD || op == 0xE3 || op == 0xE4 || op == 0xEB
        || op == 0xEC || op == 0xED || op == 0xF4 || op == 0xFC || op == 0xFD {
        Instruction::Illegal
    } else {
        Instruction::Unsupported
    }
}

/// What executing the already-fetched `op` does.
pub open spec fn execute_spec(op: u8, m: Machine) -> (Machine, Result<(), EmuError>) {
    match decode_spec(op) {
        Instruction::Nop => (m, Ok(())),
        Instruction::Jump => jmp_spec(m, op, false),
        Instruction::JumpRelative => jmp_spec(m, op, true),
        Instruction::JumpHl => (Machine { regs: RegFile { pc: m.regs.hl(), ..m.regs }, ..m }, Ok(())),
        Instruction::Load8 => load8_spec(m, op),
        Instruction::Add => add_spec(op, m),
        Instruction::Sub => sub_spec(op, m),
        Instruction::And => and_spec(op, m),
        Instruction::Xor => xor_spec(op, m),
        Instruction::Or => or_spec(op, m),
        Instruction::Cp => cp_spec(op, m),
        Instruction::Inc => inc_spec(op, 1i8, m),
        Instruction::Dec => inc_spec(op, -1i8, m),
        Instruction::Illegal => (m, Err(EmuError::IllegalOpcode(op))),
        Instruction::Unsupported => (m, Ok(())),
    }
}

/// Most machine cycles that one instruction takes, its fetch included.
pub const MAX_INSTRUCTION_CYCLES: u64 = 4;

/// One fetch-decode-execute step. It refuses to start when the clock has no room for a whole
/// instruction.
pub open spec fn step_spec(m: Machine) -> (Machine, Result<(), EmuError>) {
    if !m.clock.room(4) {
        (m, Err(EmuError::CycleLimit))
    } else {
        let (m1, r) = fetch_spec(m);
        match r {
            Err(e) => (m1, Err(e)),
            Ok(op) => execute_spec(op, m1),
        }
    }
}

/// Up to `n` steps from `m`, stopping at the first that fails.
pub open spec fn steps_spec(m: Machine, n: nat) -> (Machine, Result<(), EmuError>)
    decreases n,
{
    if n == 0 {
        (m, Ok(()))
    } else {
        let (m1, r) = step_spec(m);
        match r {
            Err(e) => (m1, Err(e)),
            Ok(_) => steps_spec(m1, (n - 1) as nat),
        }
    }
}

/// Taking one more step after `n` successful ones is the same as `n + 1` steps.
pub proof fn lemma_steps_extend(m: Machine, n: nat)
    requires
        steps_spec(m, n).1 is Ok,
    ensures
        steps_spec(m, n + 1) == step_spec(steps_spec(m, n).0),
    decreases n,
{
    let (m1, r) = step_spec(m);
    if n > 0 {
        assert(r is Ok);
        assert(steps_spec(m, n) == steps_spec(m1, (n - 1) as nat));
        lemma_steps_extend(m1, (n - 1) as nat);
        assert(steps_spec(m, n + 1) == steps_spec(m1, n));
    } else {
        match r {
            Ok(u) => {
                assert(u == ());
                assert(steps_spec(m, 1) == steps_spec(m1, 0));
            },
            Err(_) => {},
        }
    }
}

/// Decodes an opcode into its instruction group.
pub fn decode(opcode: u8) -> (r: Instruction)
    ensures
        r == decode_spec(opcode),
{
    match opcode {
        0x00 => Instruction::Nop,
        0xC2 | 0xD2 | 0xCA | 0xDA | 0xC3 => Instruction::Jump,
        0x20 | 0x30 | 0x28 | 0x38 | 0x18 => Instruction::JumpRelative,
        0xE9 => Instruction::JumpHl,
        0x40..=0x7F => Instruction::Load8,
        0x80..=0x8F | 0xC6 | 0xCE => Instruction::Add,
        0x90..=0x9F | 0xD6 | 0xDE => Instruction::Sub,
        0xA0..=0xA7 | 0xE6 => Instruction::And,
        0xA8..=0xAF | 0xEE => Instruction::Xor,
        0xB0..=0xB7 | 0xF6 => Instruction::Or,
        0xB8..=0xBF | 0xFE => Instruction::Cp,
        0x04 | 0x14 | 0x24 | 0x34 | 0x0C | 0x1C | 0x2C | 0x3C => Instruction::Inc,
        0x05 | 0x15 | 0x25 | 0x35 | 0x0D | 0x1D | 0x2D | 0x3D => Instruction::Dec,
        0xD3 | 0xDB | 0xDD | 0xE3 | 0xE4 | 0xEB..=0xED | 0xF4 | 0xFC | 0xFD => Instruction::Illegal,
        _ => Instruction::Unsupported,
    }
}

/// The register file, memory map and clock of one emulation run.
pub struct CpuContext {
    pub registers: RegFile,
    pub memory: MemoryMap,
    pub clock: Clock,
}

impl View for CpuContext {
    type V = Machine;

    open spec fn view(&self) -> Machine {
        Machine { regs: self.registers, mem: self.memory@, clock: self.clock }
    }
}

impl CpuContext {
    /// Puts together the state of one run.
    pub fn init(registers: RegFile, memory: MemoryMap, clock: Clock) -> (r: CpuContext)
        ensures
            r.registers == registers,
            r.memory@ == memory@,
            r.clock == clock,
    {
        CpuContext { registers, memory, clock }
    }

    /// Reads the byte at PC and moves PC past it. A failed read is returned as it is, with PC
    /// unchanged.
    pub fn fetch(&mut self) -> (r: Result<u8, EmuError>)
        requires
            old(self).clock.room(1),
        ensures
            (final(self)@, r) == fetch_spec(old(self)@),
    {
        let pc = self.registers.pc;
        let result = self.memory.read(&mut self.clock, pc);
        match result {
            Ok(op) => {
                self.registers.pc = pc.wrapping_add(1);
                Ok(op)
            },
            Err(e) => Err(e),
        }
    }

    /// Executes the already-fetched `opcode`.
    pub fn execute(&mut self, opcode: u8) -> (r: Result<(), EmuError>)
        requires
            old(self).clock.room(3),
        ensures
            (final(self)@, r) == execute_spec(opcode, old(self)@),
            final(self).clock.advanced(old(self).clock, 3),
    {
        match decode(opcode) {
            Instruction::Nop => Ok(()),
            Instruction::Jump => jumps::jmp(self, opcode, false),
            Instruction::JumpRelative => jumps::jmp(self, opcode, true),
            Instruction::JumpHl => {
                self.registers.pc = read_u16(&self.registers.l, &self.registers.h);
                Ok(())
            },
            Instruction::Load8 => loads::load8(self, opcode),
            Instruction::Add => arithmetic::add(opcode, self),
            Instruction::Sub => arithmetic::sub(opcode, self),
            Instruction::And => arithmetic::and(opcode, self),
            Instruction::Xor => arithmetic::xor(opcode, self),
            Instruction::Or => arithmetic::or(opcode, self),
            Instruction::Cp => arithmetic::cp(opcode, self),
            Instruction::Inc => arithmetic::inc_r8(opcode, self, 1),
            Instruction::Dec => arithmetic::inc_r8(opcode, self, -1),
            Instruction::Illegal => Err(EmuError::IllegalOpcode(opcode)),
            Instruction::Unsupported => Ok(()),
        }
    }

    /// Fetches, decodes and executes one instruction.
    pub fn step(&mut self) -> (r: Result<(), EmuError>)
        ensures
            (final(self)@, r) == step_spec(old(self)@),
            r is Ok ==> final(self).clock.m_cycles > old(self).clock.m_cycles,
    {
        if self.clock.m_cycles > u64::MAX - MAX_INSTRUCTION_CYCLES || self.clock.t_cycles
            > u64::MAX - 4 * MAX_INSTRUCTION_CYCLES {
            return Err(EmuError::CycleLimit);
        }
        let opcode = match self.fetch() {
            Ok(op) => op,
            Err(e) => return Err(e),
        };
        self.execute(opcode)
    }

    /// Runs the fetch-decode-execute loop until a step fails, and returns that failure. The
    /// state reached is that of the first failing step; the core has no other way to stop.
    pub fn start_exec_cycle(&mut self) -> (r: Result<(), EmuError>)
        ensures
            r is Err,
            exists|n: nat| steps_spec(old(self)@, n) == (final(self)@, r),
            old(self)@.wf() ==> final(self)@.wf(),
    {
        let ghost start = self@;
        let ghost mut n: nat = 0;
        loop
            invariant
                steps_spec(start, n) == (self@, Ok::<(), EmuError>(())),
                start == old(self)@,
            decreases u64::MAX - self.clock.m_cycles,
        {
            proof {
                lemma_steps_extend(start, n);
            }
            match self.step() {
                Ok(()) => {
                    proof {
                        n = n + 1;
                    }
                },
                Err(e) => {
                    assert(steps_spec(start, n + 1) == (self@, Err::<(), EmuError>(e)));
                    proof {
                        if start.wf() {
                            lemma_steps_keep_wf(start, n + 1);
                        }
                    }
                    return Err(e);
                },
            }
        }
    }
}

/// An illegal opcode ends execution with `IllegalOpcode` and changes nothing. A step that meets
/// one at PC performs the opcode's fetch and nothing else, and no later step runs; when the
/// clock has no room for an instruction, the step does not even fetch and fails with
/// `CycleLimit`.
pub proof fn lemma_illegal_opcode_stops(m: Machine)
    requires
        m.mem.read(m.regs.pc) matches Ok(op) && decode_spec(op) == Instruction::Illegal,
    ensures
        ({
            let op = m.mem.read(m.regs.pc)->Ok_0;
            let m1 = fetch_spec(m).0;
            &&& execute_spec(op, m1) == (m1, Err::<(), EmuError>(EmuError::IllegalOpcode(op)))
            &&& m1 == Machine {
                regs: RegFile { pc: next_pc(m.regs.pc), ..m.regs },
                clock: m.clock.ticked(),
                ..m
            }
            &&& m.clock.room(4) ==> step_spec(m) == (m1, Err::<(), EmuError>(
                EmuError::IllegalOpcode(op),
            ))
            &&& !m.clock.room(4) ==> step_spec(m) == (m, Err::<(), EmuError>(EmuError::CycleLimit))
            &&& forall|n: nat| n >= 1 ==> #[trigger] steps_spec(m, n) == step_spec(m)
        }),
{
}

/// LD between two registers (0x40-0x7F, neither field 6) copies the source register into the
/// destination and costs nothing beyond its fetch: no memory access, no clock tick, no other
/// change.
pub proof fn lemma_load_register(op: u8, m: Machine)
    requires
        0x40 <= op <= 0x7F,
        extract_bits(op, 0, 3) != 6,
        extract_bits(op, 3, 3) != 6,
    ensures
        m.regs.r8(extract_bits(op, 0, 3)) is Ok,
        m.regs.with_r8(extract_bits(op, 3, 3), m.regs.r8(extract_bits(op, 0, 3))->Ok_0) is Ok,
        execute_spec(op, m) == (
            Machine {
                regs: m.regs.with_r8(
                    extract_bits(op, 3, 3),
                    m.regs.r8(extract_bits(op, 0, 3))->Ok_0,
                )->Ok_0,
                ..m
            },
            Ok::<(), EmuError>(()),
        ),
{
    assert(extract_bits(op, 0, 3) <= 7 && extract_bits(op, 3, 3) <= 7 && extract_bits(op, 6, 1)
        == 1) by (bit_vector)
        requires
            0x40 <= op <= 0x7F,
    ;
}

/// LD B,L: B takes the value of L and nothing else changes; the step costs its one fetch.
pub proof fn lemma_ld_b_l(m: Machine)
    ensures
        execute_spec(0x45, m) == (
            Machine { regs: RegFile { b: m.regs.l, ..m.regs }, ..m },
            Ok::<(), EmuError>(()),
        ),
        m.clock.room(4) && m.mem.read(m.regs.pc) == Ok::<u8, EmuError>(0x45) ==> step_spec(m) == (
            Machine {
                regs: RegFile { b: m.regs.l, pc: next_pc(m.regs.pc), ..m.regs },
                clock: m.clock.ticked(),
                ..m
            },
            Ok::<(), EmuError>(()),
        ),
{
    assert(extract_bits(0x45, 0, 3) == 5 && extract_bits(0x45, 3, 3) == 0) by (bit_vector);
    lemma_load_register(0x45, m);
    if m.mem.read(m.regs.pc) == Ok::<u8, EmuError>(0x45) {
        lemma_load_register(0x45, fetch_spec(m).0);
    }
}

} // verus!
