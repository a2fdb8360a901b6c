use vstd::prelude::*;

verus! {

/// How an instruction finds its operand.
///
/// Every mode describes bytes that follow the opcode. Instructions that work
/// on registers alone (TAX, INX) carry no mode at all, so there is no variant
/// for them and resolving an address can never fail.
#[derive(Debug, Clone, Copy, PartialEq, Eq, Structural)]
#[allow(non_camel_case_types)]
pub enum AddressingMode {
    /// The operand is the byte that follows the opcode.
    Immediate,
    /// The byte that follows the opcode is an address in the zero page.
    ZeroPage,
    /// Zero-page address plus X, wrapping inside the zero page.
    ZeroPage_X,
    /// Zero-page address plus Y, wrapping inside the zero page.
    ZeroPage_Y,
    /// The two bytes that follow the opcode are a little-endian address.
    Absolute,
    /// Absolute address plus X, wrapping at the top of the address space.
    Absolute_X,
    /// Absolute address plus Y, wrapping at the top of the address space.
    Absolute_Y,
    /// Zero-page pointer plus X (wrapping inside the zero page); the operand
    /// address is the little-endian word stored at that pointer.
    Indirect_X,
    /// The little-endian word stored at a zero-page pointer, plus Y (wrapping
    /// at the top of the address space).
    Indirect_Y,
}

impl AddressingMode {
    /// Number of operand bytes that follow the opcode.
    pub open spec fn operand_len(self) -> int {
        match self {
            AddressingMode::Absolute | AddressingMode::Absolute_X | AddressingMode::Absolute_Y => 2,
            _ => 1,
        }
    }

    /// Number of operand bytes that follow the opcode: two for the absolute
    /// modes, one for every other mode.
    pub fn operand_length(&self) -> (n: u16)
        ensures
            n == self.operand_len(),
    {
        match self {
            AddressingMode::Absolute | AddressingMode::Absolute_X | AddressingMode::Absolute_Y => 2,
            _ => 1,
        }
    }
}

} // verus!
