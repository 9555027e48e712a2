use vstd::prelude::*;

use crate::cpu::cpu_context::{
    execute_spec, fetch_spec, step_spec, steps_spec, Instruction, Machine, decode_spec,
};
use crate::cpu::handlers::arithmetic::{
    add_spec, and_spec, cp_spec, inc_spec, operand_spec, or_spec, sub_spec, xor_spec,
};
use crate::cpu::handlers::jumps::jmp_spec;
use crate::cpu::handlers::loads::load8_spec;
use crate::cpu::operands::{r8_param_spec, R8};
use crate::cpu::reg_file::lemma_with_flags_wf;
use crate::mem::map::lemma_write_keeps_wf;

verus! {

/// `after` keeps the invariants and is at most `k` machine cycles later than `before`.
pub open spec fn kept(before: Machine, after: Machine, k: int) -> bool {
    after.wf() && after.clock.advanced(before.clock, k)
}

proof fn lemma_fetch(m: Machine)
    requires
        m.wf(),
        m.clock.room(1),
    ensures
        kept(m, fetch_spec(m).0, 1),
{
}

proof fn lemma_param(n8: bool, opcode: u8, index: u8, m: Machine)
    requires
        m.wf(),
        m.clock.room(1),
    ensures
        kept(m, r8_param_spec(n8, opcode, index, m).0, 1),
{
}

proof fn lemma_operand_read(op: R8, m: Machine)
    requires
        m.wf(),
        m.clock.room(1),
    ensures
        kept(m, op.read_spec(m).0, 1),
{
}

proof fn lemma_operand_write(op: R8, m: Machine, v: u8)
    requires
        m.wf(),
        m.clock.room(1),
    ensures
        kept(m, op.write_spec(m, v).0, 1),
{
    lemma_write_keeps_wf();
}

proof fn lemma_operand(imm: bool, opcode: u8, m: Machine)
    requires
        m.wf(),
        m.clock.room(2),
    ensures
        kept(m, operand_spec(imm, opcode, m).0, 1),
{
    lemma_param(imm, opcode, 0, m);
    let (m1, p) = r8_param_spec(imm, opcode, 0, m);
    if let Ok(op) = p {
        lemma_operand_read(op, m1);
    }
}

proof fn lemma_alu(opcode: u8, m: Machine)
    requires
        m.wf(),
        m.clock.room(2),
    ensures
        kept(m, add_spec(opcode, m).0, 1),
        kept(m, sub_spec(opcode, m).0, 1),
        kept(m, and_spec(opcode, m).0, 1),
        kept(m, xor_spec(opcode, m).0, 1),
        kept(m, or_spec(opcode, m).0, 1),
        kept(m, cp_spec(opcode, m).0, 1),
{
    lemma_with_flags_wf();
    lemma_operand(opcode == 0xC6 || opcode == 0xCE, opcode, m);
    lemma_operand(opcode == 0xD6 || opcode == 0xDE, opcode, m);
    lemma_operand(opcode == 0xE6, opcode, m);
    lemma_operand(opcode == 0xEE, opcode, m);
    lemma_operand(opcode == 0xF6, opcode, m);
    lemma_operand(opcode == 0xFE, opcode, m);
}

proof fn lemma_inc(opcode: u8, delta: i8, m: Machine)
    requires
        m.wf(),
        m.clock.room(2),
    ensures
        kept(m, inc_spec(opcode, delta, m).0, 2),
{
    lemma_with_flags_wf();
    let (m1, p) = r8_param_spec(false, opcode, 3, m);
    if let Ok(op) = p {
        lemma_operand_read(op, m1);
        let (m2, r) = op.read_spec(m1);
        if let Ok(value) = r {
            let (res, half) = crate::cpu::handlers::arithmetic::step_value(value, delta);
            lemma_operand_write(op, m2, res);
        }
    }
}

proof fn lemma_load8(opcode: u8, m: Machine)
    requires
        m.wf(),
        m.clock.room(3),
    ensures
        kept(m, load8_spec(m, opcode).0, 3),
{
    let imm = crate::cpu::alu::extract_bits(opcode, 6, 1) == 0;
    lemma_param(imm, opcode, 0, m);
    let (m1, sp) = r8_param_spec(imm, opcode, 0, m);
    if let Ok(src) = sp {
        lemma_operand_read(src, m1);
        let (m2, r) = src.read_spec(m1);
        if let Ok(v) = r {
            let (m3, dp) = r8_param_spec(false, opcode, 3, m2);
            if let Ok(dst) = dp {
                lemma_operand_write(dst, m3, v);
            }
        }
    }
}

proof fn lemma_jmp(opcode: u8, is_relative: bool, m: Machine)
    requires
        m.wf(),
        m.clock.room(3),
    ensures
        kept(m, jmp_spec(m, opcode, is_relative).0, 3),
{
    lemma_fetch(m);
    let m1 = fetch_spec(m).0;
    lemma_fetch(m1);
}

/// Executing any opcode keeps the invariants of the data model.
pub proof fn lemma_execute_keeps_wf(op: u8, m: Machine)
    requires
        m.wf(),
        m.clock.room(3),
    ensures
        kept(m, execute_spec(op, m).0, 3),
{
    match decode_spec(op) {
        Instruction::Jump => lemma_jmp(op, false, m),
        Instruction::JumpRelative => lemma_jmp(op, true, m),
        Instruction::Load8 => lemma_load8(op, m),
        Instruction::Add | Instruction::Sub | Instruction::And | Instruction::Xor
        | Instruction::Or | Instruction::Cp => lemma_alu(op, m),
        Instruction::Inc => lemma_inc(op, 1i8, m),
        Instruction::Dec => lemma_inc(op, -1i8, m),
        _ => {},
    }
}

/// Every step, whether it succeeds or fails, keeps the invariants of the data model: F's low
/// nibble stays zero, the memory map keeps its shape, and the clock's sub-cycles stay four to a
/// machine cycle.
pub proof fn lemma_step_keeps_wf(m: Machine)
    requires
        m.wf(),
    ensures
        step_spec(m).0.wf(),
{
    if m.clock.room(4) {
        lemma_fetch(m);
        let (m1, r) = fetch_spec(m);
        if let Ok(op) = r {
            lemma_execute_keeps_wf(op, m1);
        }
    }
}

/// Any number of steps keeps the invariants of the data model.
pub proof fn lemma_steps_keep_wf(m: Machine, n: nat)
    requires
        m.wf(),
    ensures
        steps_spec(m, n).0.wf(),
    decreases n,
{
    if n > 0 {
        lemma_step_keeps_wf(m);
        let (m1, r) = step_spec(m);
        if r is Ok {
            lemma_steps_keep_wf(m1, (n - 1) as nat);
        }
    }
}

} // verus!
