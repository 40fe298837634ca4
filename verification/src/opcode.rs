//! The opcode table: a total, immutable mapping from every byte to an
//! operation, with a designated sentinel for the bytes that name none.

use vstd::prelude::*;

verus! {

/// The operations of the instruction set, plus the sentinel `Unimplemented`
/// to which every unassigned byte decodes. Executing the sentinel faults.
#[derive(Clone, Copy, PartialEq, Eq, Structural, Debug)]
pub enum OpCode {
    HLT,
    NOP,
    SYS,
    RET,
    JMP,
    JEQ,
    JNE,
    JLT,
    JLE,
    JGT,
    JGE,
    CALL,
    PUSH,
    POP,
    INC,
    DEC,
    CMP,
    ST,
    LD,
    NOT,
    XOR,
    AND,
    OR,
    ADD,
    SUB,
    MUL,
    DIV,
    Unimplemented,
}

/// The operation named by a byte; total over all 256 byte values.
pub open spec fn spec_decode_opcode(b: u8) -> OpCode {
    if b == 0x00 {
        OpCode::HLT
    } else if b == 0x01 {
        OpCode::NOP
    } else if b == 0x02 {
        OpCode::SYS
    } else if b == 0x03 {
        OpCode::RET
    } else if b == 0x10 {
        OpCode::JMP
    } else if b == 0x11 {
        OpCode::JEQ
    } else if b == 0x12 {
        OpCode::JNE
    } else if b == 0x13 {
        OpCode::JLT
    } else if b == 0x14 {
        OpCode::JLE
    } else if b == 0x15 {
        OpCode::JGT
    } else if b == 0x16 {
        OpCode::JGE
    } else if b == 0x20 {
        OpCode::CALL
    } else if b == 0x21 {
        OpCode::PUSH
    } else if b == 0x22 {
        OpCode::POP
    } else if b == 0x23 {
        OpCode::INC
    } else if b == 0x24 {
        OpCode::DEC
    } else if b == 0x30 {
        OpCode::CMP
    } else if b == 0x31 {
        OpCode::ST
    } else if b == 0x32 {
        OpCode::LD
    } else if b == 0x40 {
        OpCode::NOT
    } else if b == 0x41 {
        OpCode::XOR
    } else if b == 0x42 {
        OpCode::AND
    } else if b == 0x43 {
        OpCode::OR
    } else if b == 0x44 {
        OpCode::ADD
    } else if b == 0x45 {
        OpCode::SUB
    } else if b == 0x46 {
        OpCode::MUL
    } else if b == 0x47 {
        OpCode::DIV
    } else {
        OpCode::Unimplemented
    }
}

/// The encoding byte of an operation; the sentinel encodes as `0xFF`,
/// one of the bytes that decode back to it.
pub open spec fn opcode_byte(op: OpCode) -> u8 {
    match op {
        OpCode::HLT => 0x00,
        OpCode::NOP => 0x01,
        OpCode::SYS => 0x02,
        OpCode::RET => 0x03,
        OpCode::JMP => 0x10,
        OpCode::JEQ => 0x11,
        OpCode::JNE => 0x12,
        OpCode::JLT => 0x13,
        OpCode::JLE => 0x14,
        OpCode::JGT => 0x15,
        OpCode::JGE => 0x16,
        OpCode::CALL => 0x20,
        OpCode::PUSH => 0x21,
        OpCode::POP => 0x22,
        OpCode::INC => 0x23,
        OpCode::DEC => 0x24,
        OpCode::CMP => 0x30,
        OpCode::ST => 0x31,
        OpCode::LD => 0x32,
        OpCode::NOT => 0x40,
        OpCode::XOR => 0x41,
        OpCode::AND => 0x42,
        OpCode::OR => 0x43,
        OpCode::ADD => 0x44,
        OpCode::SUB => 0x45,
        OpCode::MUL => 0x46,
        OpCode::DIV => 0x47,
        OpCode::Unimplemented => 0xFF,
    }
}

/// Whether a byte names an operation (rather than the sentinel).
pub open spec fn is_valid_opcode(b: u8) -> bool {
    spec_decode_opcode(b) != OpCode::Unimplemented
}

/// How many operands an operation declares: 0, 1 or 2.
pub open spec fn spec_arity(op: OpCode) -> u32 {
    match op {
        OpCode::HLT => 0,
        OpCode::NOP => 0,
        OpCode::SYS => 0,
        OpCode::RET => 0,
        OpCode::JMP => 1,
        OpCode::JEQ => 1,
        OpCode::JNE => 1,
        OpCode::JLT => 1,
        OpCode::JLE => 1,
        OpCode::JGT => 1,
        OpCode::JGE => 1,
        OpCode::CALL => 1,
        OpCode::PUSH => 1,
        OpCode::POP => 1,
        OpCode::INC => 1,
        OpCode::DEC => 1,
        OpCode::NOT => 1,
        OpCode::CMP => 2,
        OpCode::ST => 2,
        OpCode::LD => 2,
        OpCode::XOR => 2,
        OpCode::AND => 2,
        OpCode::OR => 2,
        OpCode::ADD => 2,
        OpCode::SUB => 2,
        OpCode::MUL => 2,
        OpCode::DIV => 2,
        OpCode::Unimplemented => 0,
    }
}

impl OpCode {
    /// Decodes an opcode byte; total, so decode can never produce "no result".
    pub fn decode(b: u8) -> (op: OpCode)
        ensures
            op == spec_decode_opcode(b),
    {
        match b {
            0x00 => OpCode::HLT,
            0x01 => OpCode::NOP,
            0x02 => OpCode::SYS,
            0x03 => OpCode::RET,
            0x10 => OpCode::JMP,
            0x11 => OpCode::JEQ,
            0x12 => OpCode::JNE,
            0x13 => OpCode::JLT,
            0x14 => OpCode::JLE,
            0x15 => OpCode::JGT,
            0x16 => OpCode::JGE,
            0x20 => OpCode::CALL,
            0x21 => OpCode::PUSH,
            0x22 => OpCode::POP,
            0x23 => OpCode::INC,
            0x24 => OpCode::DEC,
            0x30 => OpCode::CMP,
            0x31 => OpCode::ST,
            0x32 => OpCode::LD,
            0x40 => OpCode::NOT,
            0x41 => OpCode::XOR,
            0x42 => OpCode::AND,
            0x43 => OpCode::OR,
            0x44 => OpCode::ADD,
            0x45 => OpCode::SUB,
            0x46 => OpCode::MUL,
            0x47 => OpCode::DIV,
            _ => OpCode::Unimplemented,
        }
    }

    /// The number of operand slots this operation consumes.
    pub fn arity(self) -> (n: u32)
        ensures
            n == spec_arity(self),
    {
        match self {
            OpCode::HLT | OpCode::NOP | OpCode::SYS | OpCode::RET | OpCode::Unimplemented => 0,
            OpCode::JMP | OpCode::JEQ | OpCode::JNE | OpCode::JLT | OpCode::JLE | OpCode::JGT
                | OpCode::JGE | OpCode::CALL | OpCode::PUSH | OpCode::POP | OpCode::INC
                | OpCode::DEC | OpCode::NOT => 1,
            OpCode::CMP | OpCode::ST | OpCode::LD | OpCode::XOR | OpCode::AND | OpCode::OR
                | OpCode::ADD | OpCode::SUB | OpCode::MUL | OpCode::DIV => 2,
        }
    }
}

/// Decode recovers every named operation from its encoding byte.
pub proof fn lemma_opcode_byte_decodes(op: OpCode)
    requires
        op != OpCode::Unimplemented,
    ensures
        spec_decode_opcode(opcode_byte(op)) == op,
{
}

/// Decode is injective on the bytes that name an operation: two bytes that
/// decode to the same named operation are the same byte. Together with
/// totality of [`spec_decode_opcode`] this says each byte decodes to exactly
/// one operation and the valid codes map one-to-one onto the named operations.
pub proof fn lemma_opcode_decode_injective(b1: u8, b2: u8)
    requires
        spec_decode_opcode(b1) == spec_decode_opcode(b2),
        spec_decode_opcode(b1) != OpCode::Unimplemented,
    ensures
        b1 == b2,
{
}

} // verus!
