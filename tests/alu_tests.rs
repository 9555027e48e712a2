use redgb::cpu::alu;
use redgb::cpu::clock::Clock;
use redgb::cpu::cpu_context::CpuContext;
use redgb::cpu::reg_file::{Flag, Modes, RegFile};
use redgb::mem::map::MemoryMap;
use redgb::rom::rom_info::ROMInfo;

// Memory is set up through a separate clock, so that only the instructions count.
fn get_clu(rom: Vec<u8>) -> CpuContext {
    let mut clu = CpuContext::init(
        RegFile::new(Modes::CGBDMG),
        MemoryMap::init_rom(rom, ROMInfo::default()),
        Clock::default(),
    );
    clu.registers.pc = 0;
    clu
}

#[test]
fn tests_add_a_b() {
    let mut clu = get_clu(vec![0x80, 0xDD]);
    clu.registers.a = 172;
    clu.registers.b = 108;
    let _ = clu.start_exec_cycle();
    assert_eq!(clu.registers.a, 24);
    assert_eq!(clu.clock.m_cycles, 2);
    assert!(clu.registers.read_flag(Flag::Carry));
    assert!(clu.registers.read_flag(Flag::HalfCarry));
    assert!(!clu.registers.read_flag(Flag::Zero));
    assert!(!clu.registers.read_flag(Flag::Subtract));

    clu.registers.a = 0;
    clu.registers.b = 0;
    clu.registers.pc = 0;
    let _ = clu.start_exec_cycle();
    assert_eq!(clu.clock.m_cycles, 4);
    assert!(!clu.registers.read_flag(Flag::Carry));
    assert!(!clu.registers.read_flag(Flag::HalfCarry));
    assert!(clu.registers.read_flag(Flag::Zero));
    assert!(!clu.registers.read_flag(Flag::Subtract));
}

#[test]
fn tests_adc_a_hl() {
    let mut setup = Clock::default();
    let mut clu = get_clu(vec![0x8E, 0xDD]);
    clu.registers.a = 172;
    alu::write_u16(&mut clu.registers.l, &mut clu.registers.h, 0xC001);
    let _ = clu.memory.write(&mut setup, 0xC001, 108);
    let _ = clu.registers.set_flag(Flag::Carry, Some(true));
    let _ = clu.start_exec_cycle();
    assert_eq!(clu.registers.a, 25);
    assert_eq!(clu.clock.m_cycles, 3);
    assert!(clu.registers.read_flag(Flag::Carry));
    assert!(clu.registers.read_flag(Flag::HalfCarry));
    assert!(!clu.registers.read_flag(Flag::Zero));
    assert!(!clu.registers.read_flag(Flag::Subtract));

    clu.registers.a = 255;
    let _ = clu.memory.write(&mut setup, 0xC001, 0);
    clu.registers.pc = 0;
    let _ = clu.start_exec_cycle();
    assert_eq!(clu.clock.m_cycles, 6);
    assert!(clu.registers.read_flag(Flag::Carry));
    assert!(clu.registers.read_flag(Flag::HalfCarry));
    assert!(clu.registers.read_flag(Flag::Zero));
    assert!(!clu.registers.read_flag(Flag::Subtract));
}

#[test]
fn tests_sub_a_c() {
    let mut clu = get_clu(vec![0x91, 0xDD]);
    clu.registers.a = 64;
    clu.registers.c = 108;
    let _ = clu.start_exec_cycle();
    assert_eq!(clu.registers.a, 212);
    assert_eq!(clu.clock.m_cycles, 2);
    assert!(clu.registers.read_flag(Flag::Carry));
    assert!(clu.registers.read_flag(Flag::HalfCarry));
    assert!(!clu.registers.read_flag(Flag::Zero));
    assert!(clu.registers.read_flag(Flag::Subtract));

    clu.registers.a = 0;
    clu.registers.c = 0;
    clu.registers.pc = 0;
    let _ = clu.start_exec_cycle();
    assert_eq!(clu.clock.m_cycles, 4);
    assert!(!clu.registers.read_flag(Flag::Carry));
    assert!(!clu.registers.read_flag(Flag::HalfCarry));
    assert!(clu.registers.read_flag(Flag::Zero));
    assert!(clu.registers.read_flag(Flag::Subtract));
}

#[test]
fn tests_sbc_a_hl() {
    let mut setup = Clock::default();
    let mut clu = get_clu(vec![0x9E, 0xDD]);
    clu.registers.a = 64;
    alu::write_u16(&mut clu.registers.l, &mut clu.registers.h, 0xC001);
    let _ = clu.memory.write(&mut setup, 0xC001, 108);
    let _ = clu.registers.set_flag(Flag::Carry, Some(true));
    let _ = clu.start_exec_cycle();
    assert_eq!(clu.registers.a, 211);
    assert_eq!(clu.clock.m_cycles, 3);
    assert!(clu.registers.read_flag(Flag::Carry));
    assert!(clu.registers.read_flag(Flag::HalfCarry));
    assert!(!clu.registers.read_flag(Flag::Zero));
    assert!(clu.registers.read_flag(Flag::Subtract));

    clu.registers.a = 1;
    let _ = clu.memory.write(&mut setup, 0xC001, 0);
    clu.registers.pc = 0;
    let _ = clu.start_exec_cycle();
    assert_eq!(clu.clock.m_cycles, 6);
    assert!(!clu.registers.read_flag(Flag::Carry));
    assert!(!clu.registers.read_flag(Flag::HalfCarry));
    assert!(clu.registers.read_flag(Flag::Zero));
    assert!(clu.registers.read_flag(Flag::Subtract));
}
