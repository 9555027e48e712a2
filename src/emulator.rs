use vstd::prelude::*;

use crate::cpu::clock::Clock;
use crate::cpu::cpu_context::{steps_spec, CpuContext, Machine};
use crate::cpu::reg_file::{initial_registers, Modes, RegFile};
use crate::error::EmuError;
use crate::mem::map::MemoryMap;
use crate::rom::rom_info::ROMInfo;

verus! {

/// Starts a run on a cartridge image: DMG registers, the memory map built from the image and
/// the header's external-RAM bank count, and a zeroed clock; then runs until a step fails and
/// returns that failure.
pub fn init_emulation(rom: Vec<u8>, header_data: ROMInfo) -> (r: Result<(), EmuError>)
    requires
        rom.len() + 0x8000 <= usize::MAX,
    ensures
        r is Err,
        exists|m: Machine, n: nat|
            m.regs == initial_registers(Modes::DMG) && m.mem == MemoryMap::init_rom_spec(
                rom@,
                header_data.mem_banks,
            ) && m.clock == (Clock { m_cycles: 0, t_cycles: 0 }) && (#[trigger] steps_spec(
                m,
                n,
            )).1 == r,
{
    let registers = RegFile::new(Modes::DMG);
    let memory = MemoryMap::init_rom(rom, header_data);
    let clock = Clock::default();
    let mut context = CpuContext::init(registers, memory, clock);
    let ghost m = context@;
    let r = context.start_exec_cycle();
    let ghost n = choose|n: nat| steps_spec(m, n) == (context@, r);
    assert(steps_spec(m, n).1 == r);
    r
}

} // verus!
