use redgb::cpu::alu;
use redgb::cpu::clock::Clock;
use redgb::cpu::cpu_context::{decode, CpuContext, Instruction};
use redgb::cpu::handlers::loads;
use redgb::cpu::operands::{R16Type, R16, R8};
use redgb::cpu::reg_file::{Flag, Modes, RegFile};
use redgb::emulator::init_emulation;
use redgb::error::EmuError;
use redgb::mem::map::MemoryMap;
use redgb::rom::rom_info::ROMInfo;

fn context_of(rom: Vec<u8>) -> CpuContext {
    let mut context = CpuContext::init(
        RegFile::new(Modes::CGBDMG),
        MemoryMap::init_rom(rom, ROMInfo::default()),
        Clock::default(),
    );
    context.registers.pc = 0;
    context
}

fn poke(context: &mut CpuContext, addr: u16, value: u8) {
    let mut side = Clock::default();
    context.memory.write(&mut side, addr, value).unwrap();
}

fn peek(context: &CpuContext, addr: u16) -> u8 {
    let mut side = Clock::default();
    context.memory.read(&mut side, addr).unwrap()
}

#[test]
fn register_presets() {
    let dmg = RegFile::new(Modes::DMG);
    assert_eq!((dmg.a, dmg.b, dmg.c, dmg.d, dmg.e, dmg.f, dmg.h, dmg.l), (0x01, 0, 0x13, 0, 0xD8, 0xB0, 0x01, 0x4D));
    assert_eq!((dmg.sp, dmg.pc), (0xFFFE, 0x0100));
    let mgb = RegFile::new(Modes::MGB);
    assert_eq!(mgb.a, 0xFF);
    let cgb = RegFile::new(Modes::CGB);
    assert_eq!((cgb.a, cgb.d, cgb.e, cgb.f, cgb.l), (0x11, 0xFF, 0x56, 0x80, 0x0D));
    let cgbdmg = RegFile::new(Modes::CGBDMG);
    assert_eq!((cgbdmg.e, cgbdmg.l, cgbdmg.sp, cgbdmg.pc), (0x08, 0x7C, 0xFFFE, 0x0100));
}

#[test]
fn register_codes_and_conditions() {
    let mut regs = RegFile::new(Modes::DMG);
    assert_eq!(regs.match_register(7), Ok(0x01));
    assert_eq!(regs.match_register(1), Ok(0x13));
    assert_eq!(regs.match_register(6), Err(EmuError::InvalidRegisterIndex));
    assert_eq!(regs.match_register(8), Err(EmuError::InvalidRegisterIndex));
    assert_eq!(regs.set_register(6, 9), Err(EmuError::InvalidRegisterIndex));
    assert_eq!(regs.set_register(2, 9), Ok(()));
    assert_eq!(regs.d, 9);
    // DMG starts with F = 0xB0: Zero, HalfCarry and Carry set.
    assert_eq!(regs.match_condition(0), Ok(false));
    assert_eq!(regs.match_condition(1), Ok(true));
    assert_eq!(regs.match_condition(2), Ok(false));
    assert_eq!(regs.match_condition(3), Ok(true));
    assert_eq!(regs.match_condition(4), Err(EmuError::InvalidConditionCode));
}

#[test]
fn flags_set_toggle_and_set_all() {
    let mut regs = RegFile::new(Modes::CGB);
    regs.f = 0;
    assert_eq!(regs.set_flag(Flag::Zero, None), Ok(()));
    assert_eq!(regs.f, 0x80);
    assert_eq!(regs.set_flag(Flag::Zero, None), Ok(()));
    assert_eq!(regs.f, 0x00);
    assert_eq!(regs.set_flag(Flag::Carry, Some(true)), Ok(()));
    assert_eq!(regs.f, 0x10);
    assert!(regs.read_flag(Flag::Carry));
    assert_eq!(regs.set_all_flags(&[1, 0, 1, 0]), Ok(()));
    assert_eq!(regs.f, 0xA0);
    assert_eq!(regs.set_all_flags(&[2, 3, 0, 1]), Ok(()));
    assert_eq!(regs.f, 0x50);
    assert!(!regs.read_flag(Flag::Zero));
    assert!(regs.read_flag(Flag::Subtract));
}

#[test]
fn illegal_opcodes_stop_after_one_fetch() {
    for &op in &[0xD3u8, 0xDB, 0xDD, 0xE3, 0xE4, 0xEB, 0xEC, 0xED, 0xF4, 0xFC, 0xFD] {
        let mut context = context_of(vec![op, 0x00]);
        assert_eq!(context.start_exec_cycle(), Err(EmuError::IllegalOpcode(op)));
        assert_eq!(context.registers.pc, 1);
        assert_eq!(context.clock.m_cycles, 1);
        assert_eq!(context.clock.t_cycles, 4);
    }
}

#[test]
fn decode_groups() {
    assert_eq!(decode(0x00), Instruction::Nop);
    assert_eq!(decode(0xC3), Instruction::Jump);
    assert_eq!(decode(0x18), Instruction::JumpRelative);
    assert_eq!(decode(0xE9), Instruction::JumpHl);
    assert_eq!(decode(0x76), Instruction::Load8);
    assert_eq!(decode(0x3E), Instruction::Unsupported);
    assert_eq!(decode(0x06), Instruction::Unsupported);
    assert_eq!(decode(0xCE), Instruction::Add);
    assert_eq!(decode(0x9F), Instruction::Sub);
    assert_eq!(decode(0xE6), Instruction::And);
    assert_eq!(decode(0xAF), Instruction::Xor);
    assert_eq!(decode(0xF6), Instruction::Or);
    assert_eq!(decode(0xB8), Instruction::Cp);
    assert_eq!(decode(0x3C), Instruction::Inc);
    assert_eq!(decode(0x35), Instruction::Dec);
    assert_eq!(decode(0xEC), Instruction::Illegal);
    assert_eq!(decode(0xCB), Instruction::Unsupported);
    assert_eq!(decode(0x01), Instruction::Unsupported);
}

#[test]
fn unsupported_opcode_changes_nothing() {
    let mut context = context_of(vec![0x07, 0xDD]);
    let before = context.registers;
    assert_eq!(context.start_exec_cycle(), Err(EmuError::IllegalOpcode(0xDD)));
    assert_eq!(context.registers.pc, 2);
    assert_eq!(RegFile { pc: 0, ..context.registers }, RegFile { pc: 0, ..before });
    assert_eq!(context.clock.m_cycles, 2);
}

#[test]
fn jump_to_hl() {
    let mut context = context_of(vec![0xE9, 0x00, 0x00, 0x00, 0x00, 0xDD]);
    alu::write_u16(&mut context.registers.l, &mut context.registers.h, 0x0005);
    assert_eq!(context.start_exec_cycle(), Err(EmuError::IllegalOpcode(0xDD)));
    assert_eq!(context.registers.pc, 6);
    assert_eq!(context.clock.m_cycles, 2);
}

#[test]
fn relative_jumps() {
    let mut context = context_of(vec![0x18, 0x02, 0xDD, 0xDD, 0xDD]);
    assert_eq!(context.start_exec_cycle(), Err(EmuError::IllegalOpcode(0xDD)));
    assert_eq!(context.registers.pc, 5);
    assert_eq!(context.clock.m_cycles, 4);

    let mut back = context_of(vec![0xDD, 0x18, 0xFD]);
    back.registers.pc = 1;
    assert_eq!(back.start_exec_cycle(), Err(EmuError::IllegalOpcode(0xDD)));
    assert_eq!(back.registers.pc, 1);
    assert_eq!(back.clock.m_cycles, 4);

    let mut not_taken = context_of(vec![0x20, 0x05, 0xDD]);
    let _ = not_taken.registers.set_flag(Flag::Zero, Some(true));
    assert_eq!(not_taken.start_exec_cycle(), Err(EmuError::IllegalOpcode(0xDD)));
    assert_eq!(not_taken.registers.pc, 3);
    assert_eq!(not_taken.clock.m_cycles, 3);
}

#[test]
fn logic_instructions() {
    let mut and = context_of(vec![0xA0, 0xDD]);
    and.registers.a = 0xCA;
    and.registers.b = 0x0F;
    let _ = and.start_exec_cycle();
    assert_eq!(and.registers.a, 0x0A);
    assert_eq!(and.registers.f, 0x20);
    assert_eq!(and.clock.m_cycles, 2);

    let mut xor = context_of(vec![0xEE, 0xFF, 0xDD]);
    xor.registers.a = 0xFF;
    let _ = xor.start_exec_cycle();
    assert_eq!(xor.registers.a, 0);
    assert_eq!(xor.registers.f, 0x80);
    assert_eq!(xor.clock.m_cycles, 3);

    let mut or = context_of(vec![0xB6, 0xDD]);
    alu::write_u16(&mut or.registers.l, &mut or.registers.h, 0xC000);
    poke(&mut or, 0xC000, 0x01);
    or.registers.a = 0x80;
    let _ = or.start_exec_cycle();
    assert_eq!(or.registers.a, 0x81);
    assert_eq!(or.registers.f, 0x00);
    assert_eq!(or.clock.m_cycles, 3);
}

#[test]
fn compare_keeps_a() {
    let mut equal = context_of(vec![0xFE, 0x10, 0xDD]);
    equal.registers.a = 0x10;
    let _ = equal.start_exec_cycle();
    assert_eq!(equal.registers.a, 0x10);
    assert_eq!(equal.registers.f, 0xC0);

    let mut below = context_of(vec![0xB9, 0xDD]);
    below.registers.a = 0x0F;
    below.registers.c = 0x10;
    let _ = below.start_exec_cycle();
    assert_eq!(below.registers.a, 0x0F);
    assert!(below.registers.read_flag(Flag::Carry));
    assert!(!below.registers.read_flag(Flag::HalfCarry));
    assert!(below.registers.read_flag(Flag::Subtract));
    assert!(!below.registers.read_flag(Flag::Zero));
}

#[test]
fn adc_register_and_immediate() {
    let mut context = context_of(vec![0x88, 0xC6, 0x01, 0xDD]);
    context.registers.a = 0x0F;
    context.registers.b = 0x00;
    let _ = context.registers.set_flag(Flag::Carry, Some(true));
    let _ = context.start_exec_cycle();
    // ADC A,B: 0x0F + 0 + 1; then ADD A,1.
    assert_eq!(context.registers.a, 0x11);
    assert!(!context.registers.read_flag(Flag::HalfCarry));
    assert!(!context.registers.read_flag(Flag::Carry));
    assert_eq!(context.clock.m_cycles, 4);
}

#[test]
fn inc_keeps_carry() {
    for &carry in &[true, false] {
        let mut context = context_of(vec![0x04, 0xDD]);
        context.registers.b = 255;
        let _ = context.registers.set_flag(Flag::Carry, Some(carry));
        let _ = context.start_exec_cycle();
        assert_eq!(context.registers.b, 0);
        assert!(context.registers.read_flag(Flag::Zero));
        assert!(context.registers.read_flag(Flag::HalfCarry));
        assert!(!context.registers.read_flag(Flag::Subtract));
        assert_eq!(context.registers.read_flag(Flag::Carry), carry);
    }
}

#[test]
fn dec_register() {
    let mut context = context_of(vec![0x0D, 0xDD]);
    context.registers.c = 0x10;
    let _ = context.start_exec_cycle();
    assert_eq!(context.registers.c, 0x0F);
    assert!(context.registers.read_flag(Flag::HalfCarry));
    assert!(context.registers.read_flag(Flag::Subtract));
    assert!(!context.registers.read_flag(Flag::Zero));
    assert_eq!(context.clock.m_cycles, 2);
}

#[test]
fn inc_on_rom_fails_without_touching_flags() {
    let mut context = context_of(vec![0x34, 0xDD]);
    alu::write_u16(&mut context.registers.l, &mut context.registers.h, 0x0100);
    let f = context.registers.f;
    assert_eq!(context.start_exec_cycle(), Err(EmuError::ReadOnlyWrite(0x0100)));
    assert_eq!(context.registers.f, f);
    assert_eq!(context.clock.m_cycles, 3);
    assert_eq!(context.registers.pc, 1);
}

#[test]
fn fetch_failure_is_returned() {
    let mut context = context_of(vec![]);
    context.memory.active_rom_bank = 5;
    context.registers.pc = 0x4000;
    assert_eq!(context.start_exec_cycle(), Err(EmuError::OutOfBounds(0x4000)));
    assert_eq!(context.registers.pc, 0x4000);
    assert_eq!(context.clock.m_cycles, 1);
}

#[test]
fn full_clock_refuses_to_step() {
    let mut context = context_of(vec![0x00]);
    context.clock.m_cycles = u64::MAX - 3;
    context.clock.t_cycles = 0;
    assert_eq!(context.start_exec_cycle(), Err(EmuError::CycleLimit));
    assert_eq!(context.registers.pc, 0);
    assert_eq!(context.clock.m_cycles, u64::MAX - 3);
}

#[test]
fn operand_resolution() {
    let mut context = context_of(vec![0x99]);
    alu::write_u16(&mut context.registers.l, &mut context.registers.h, 0xC010);
    assert_eq!(R8::get_r8_param(false, 0x46, 3, &mut context), Ok(R8::Register(0)));
    assert_eq!(R8::get_r8_param(false, 0x46, 0, &mut context), Ok(R8::Hl(0xC010)));
    assert_eq!(context.clock.m_cycles, 0);
    assert_eq!(R8::get_r8_param(true, 0x46, 0, &mut context), Ok(R8::N8(0x99)));
    assert_eq!((context.registers.pc, context.clock.m_cycles), (1, 1));
    assert_eq!(R8::Hl(0xC010).write(&mut context, 0x3C), Ok(()));
    assert_eq!(R8::Hl(0xC010).read(&mut context), Ok(0x3C));
    assert_eq!(context.clock.m_cycles, 3);
    assert_eq!(R8::N8(5).write(&mut context, 1), Ok(()));
    assert_eq!(R8::N8(5).read(&mut context), Ok(5));
    assert_eq!(R8::Register(6).read(&mut context), Err(EmuError::InvalidRegisterIndex));
    assert_eq!(R8::Register(3).write(&mut context, 0x44), Ok(()));
    assert_eq!(context.registers.e, 0x44);
    assert_eq!(context.clock.m_cycles, 3);
}

#[test]
fn register_pairs() {
    assert_eq!(R16::new(0x21, 4, R16Type::R16), Ok(R16::HL));
    assert_eq!(R16::new(0x31, 4, R16Type::R16), Ok(R16::SP));
    assert_eq!(R16::new(0xF5, 4, R16Type::R16Stk), Ok(R16::AF));
    assert_eq!(R16::new(0x3A, 4, R16Type::R16Mem), Ok(R16::HL));
    assert_eq!(R16::new(0x11, 4, R16Type::R16Mem), Ok(R16::DE));
    assert_eq!(R16::new(0x01, 7, R16Type::R16), Err(EmuError::InvalidRegisterIndex));
    let mut regs = RegFile::new(Modes::DMG);
    assert_eq!(R16::BC.read(&regs), 0x0013);
    R16::AF.write(0x12FF, &mut regs);
    assert_eq!((regs.a, regs.f), (0x12, 0xF0));
    assert_eq!(R16::AF.read(&regs), 0x12F0);
    R16::DE.write(0xBEEF, &mut regs);
    assert_eq!((regs.d, regs.e), (0xBE, 0xEF));
    R16::SP.write(0x1234, &mut regs);
    assert_eq!(R16::SP.read(&regs), 0x1234);
}

#[test]
fn sixteen_bit_loads() {
    let mut context = context_of(vec![0x01, 0x34, 0x12]);
    context.registers.pc = 1;
    assert_eq!(loads::load16(&mut context, 0x01), Ok(()));
    assert_eq!((context.registers.b, context.registers.c), (0x12, 0x34));
    assert_eq!(context.clock.m_cycles, 2);

    alu::write_u16(&mut context.registers.l, &mut context.registers.h, 0xC000);
    context.registers.a = 0x5A;
    assert_eq!(loads::load_r16mem_a(0x22, &mut context), Ok(()));
    assert_eq!(peek(&context, 0xC000), 0x5A);
    assert_eq!(alu::read_u16(&context.registers.l, &context.registers.h), 0xC001);

    poke(&mut context, 0xC001, 0x77);
    assert_eq!(loads::load_a_r16mem(0x3A, &mut context), Ok(()));
    assert_eq!(context.registers.a, 0x77);
    assert_eq!(alu::read_u16(&context.registers.l, &context.registers.h), 0xC000);
    assert_eq!(context.clock.m_cycles, 4);
}

#[test]
fn emulation_runs_until_an_error() {
    // Zeroed memory runs as NOPs until PC wraps round to the illegal opcode at 0x0000.
    assert_eq!(init_emulation(vec![0xD3], ROMInfo::default()), Err(EmuError::IllegalOpcode(0xD3)));
    let mut info = ROMInfo::default();
    info.mem_banks = 0;
    assert_eq!(init_emulation(vec![0xD3], info), Err(EmuError::OutOfBounds(0xA000)));
}

#[test]
fn immediate_load_opcode_is_a_no_op() {
    let mut context = context_of(vec![0x06, 0xD3, 0xD3]);
    let before = context.registers;
    assert_eq!(context.start_exec_cycle(), Err(EmuError::IllegalOpcode(0xD3)));
    assert_eq!(context.registers.pc, 2);
    assert_eq!(context.clock.m_cycles, 2);
    assert_eq!(RegFile { pc: 0, ..context.registers }, RegFile { pc: 0, ..before });
}

#[test]
fn adc_carry_in_with_full_operand() {
    let mut context = context_of(vec![0x88, 0xDD]);
    context.registers.a = 0;
    context.registers.b = 0xFF;
    let _ = context.registers.set_flag(Flag::Carry, Some(true));
    let _ = context.start_exec_cycle();
    assert_eq!(context.registers.a, 0);
    assert!(context.registers.read_flag(Flag::Carry));
    assert!(context.registers.read_flag(Flag::HalfCarry));
    assert!(context.registers.read_flag(Flag::Zero));
    assert!(!context.registers.read_flag(Flag::Subtract));
}

#[test]
fn adc_half_carry_from_carry_in() {
    let mut context = context_of(vec![0x88, 0xDD]);
    context.registers.a = 0x00;
    context.registers.b = 0x0F;
    let _ = context.registers.set_flag(Flag::Carry, Some(true));
    let _ = context.start_exec_cycle();
    assert_eq!(context.registers.a, 0x10);
    assert!(context.registers.read_flag(Flag::HalfCarry));
    assert!(!context.registers.read_flag(Flag::Carry));
}

#[test]
fn sbc_carry_in_with_full_operand() {
    let mut context = context_of(vec![0x98, 0xDD]);
    context.registers.a = 0;
    context.registers.b = 0xFF;
    let _ = context.registers.set_flag(Flag::Carry, Some(true));
    let _ = context.start_exec_cycle();
    assert_eq!(context.registers.a, 0);
    assert!(context.registers.read_flag(Flag::Carry));
    assert!(context.registers.read_flag(Flag::HalfCarry));
    assert!(context.registers.read_flag(Flag::Zero));
    assert!(context.registers.read_flag(Flag::Subtract));

    let mut low = context_of(vec![0x98, 0xDD]);
    low.registers.a = 0x10;
    low.registers.b = 0x0F;
    let _ = low.registers.set_flag(Flag::Carry, Some(true));
    let _ = low.start_exec_cycle();
    assert_eq!(low.registers.a, 0x00);
    assert!(low.registers.read_flag(Flag::HalfCarry));
    assert!(!low.registers.read_flag(Flag::Carry));
    assert!(low.registers.read_flag(Flag::Zero));
}
