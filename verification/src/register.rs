//! The register file: eight named 32-bit registers and the total decode
//! from a register field in an instruction byte.

use vstd::prelude::*;

verus! {

/// The eight registers. `A`..`D` are general purpose, `R` carries results
/// and comparison flags, `O` is the origin (base) register added to every
/// memory-relative effective address, `SP` is the stack cursor and `IP`
/// the instruction pointer.
#[derive(Clone, Copy, PartialEq, Eq, Structural, Debug)]
pub enum Register {
    A,
    B,
    C,
    D,
    R,
    O,
    SP,
    IP,
}

/// The register selected by the low 3 bits of a byte. Total: upper bits
/// are ignored, so no byte is an invalid register field.
pub open spec fn spec_decode_register(b: u8) -> Register {
    let k = b & 0x07;
    if k == 0x00 {
        Register::A
    } else if k == 0x01 {
        Register::B
    } else if k == 0x02 {
        Register::C
    } else if k == 0x03 {
        Register::D
    } else if k == 0x04 {
        Register::R
    } else if k == 0x05 {
        Register::O
    } else if k == 0x06 {
        Register::SP
    } else {
        Register::IP
    }
}

impl Register {
    /// Decodes a register from an instruction byte; only the low 3 bits matter.
    pub fn decode(b: u8) -> (r: Register)
        ensures
            r == spec_decode_register(b),
    {
        let k = b & 0x07;
        if k == 0x00 {
            Register::A
        } else if k == 0x01 {
            Register::B
        } else if k == 0x02 {
            Register::C
        } else if k == 0x03 {
            Register::D
        } else if k == 0x04 {
            Register::R
        } else if k == 0x05 {
            Register::O
        } else if k == 0x06 {
            Register::SP
        } else {
            Register::IP
        }
    }
}

/// Register decode masking: the upper 5 bits of the source byte never
/// change which register is decoded.
pub proof fn lemma_register_decode_masked(b: u8)
    ensures
        spec_decode_register(b | 0xF8) == spec_decode_register(b),
{
    assert((b | 0xF8) & 0x07 == b & 0x07) by (bit_vector);
}

} // verus!
