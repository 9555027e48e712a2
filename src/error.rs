use vstd::prelude::*;

verus! {

/// Every way in which an operation of the core can fail.
#[derive(Clone, Copy, Debug, PartialEq, Eq, Structural)]
pub enum EmuError {
    /// The address has no backing cell.
    OutOfBounds(u16),
    /// A write targeted ROM (0x0000-0x7FFF).
    ReadOnlyWrite(u16),
    /// A write targeted the prohibited region (0xFEA0-0xFEFF).
    ProhibitedRegion(u16),
    /// The opcode is one of the fixed illegal opcodes.
    IllegalOpcode(u8),
    /// A bit-field insert would reach past bit 7.
    OverflowBitWrite,
    /// A register code outside {0,1,2,3,4,5,7}.
    InvalidRegisterIndex,
    /// A condition code outside 0..=3.
    InvalidConditionCode,
    /// The cycle counter has no room left for another instruction.
    CycleLimit,
}

} // verus!
