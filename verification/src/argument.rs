//! Operands as capabilities: each operand of an instruction resolves to
//! exactly one 32-bit read and, where legal, one 32-bit write.

use vstd::prelude::*;
use crate::register::Register;

verus! {

/// An operand that always reads the same value. Writing to it is a no-op
/// recorded as a diagnostic, never a fault: constants are a legitimate
/// decode target for instructions that only read their operand.
#[derive(Clone, Copy, PartialEq, Eq, Structural, Debug)]
pub struct Constant {
    pub val: u32,
}

impl Constant {
    pub fn new(val: u32) -> (c: Constant)
        ensures
            c.val == val,
    {
        Constant { val }
    }
}

/// An operand backed by the memory cell at effective address `O + addr`.
#[derive(Clone, Copy, PartialEq, Eq, Structural, Debug)]
pub struct DirectAddress {
    pub addr: u32,
}

impl DirectAddress {
    pub fn new(addr: u32) -> (d: DirectAddress)
        ensures
            d.addr == addr,
    {
        DirectAddress { addr }
    }
}

/// An operand backed by the memory cell at effective address
/// `O + value_of(reg)`.
#[derive(Clone, Copy, PartialEq, Eq, Structural, Debug)]
pub struct RegisterAddress {
    pub reg: Register,
}

impl RegisterAddress {
    pub fn new(reg: Register) -> (r: RegisterAddress)
        ensures
            r.reg == reg,
    {
        RegisterAddress { reg }
    }
}

/// The four operand kinds, as one closed tagged union with a uniform
/// read/write contract (the methods live beside the processor).
#[derive(Clone, Copy, PartialEq, Eq, Structural, Debug)]
pub enum Argument {
    /// An immediate constant.
    Constant(Constant),
    /// A memory cell named by a fixed offset.
    DirectAddress(DirectAddress),
    /// A memory cell named by a register's value.
    RegisterIndirect(RegisterAddress),
    /// A register itself; no memory access.
    Register(Register),
}

} // verus!
