//! The mathematical model of the machine and the exact meaning of one
//! fetch-decode-execute cycle.
//!
//! [`Vm`] is a ghost snapshot of a whole machine: eight registers, the memory
//! contents, the engine state and the diagnostic counter. [`step_spec`] maps a
//! running snapshot to the snapshot after one cycle together with the event
//! the cycle reports. The executable engine is proved to return exactly this.
//!
//! Instruction layout: an opcode byte, then per declared operand a mode byte
//! followed by its payload — 4 little-endian bytes for `Constant` and
//! `DirectAddress`, 1 register byte for `RegisterIndirect` and `Register`.
//! Only the low 2 bits of a mode byte are significant, so operand decode is
//! total. For two-operand instructions the first operand is the destination
//! (and left source), the second the source.
//!
//! Comparison is unsigned. `CMP` stores one of the flags [`FLAG_LT`],
//! [`FLAG_EQ`], [`FLAG_GT`] into register `R`; the conditional jumps consult
//! those bits and do not clear them.
//!
//! The stack grows downward: `PUSH` decrements `SP` by 4 and then writes at
//! `O + SP`; `POP` reads at `O + SP`, writes the destination, and then
//! increments `SP` by 4.

use vstd::prelude::*;
use crate::argument::{Argument, Constant, DirectAddress, RegisterAddress};
use crate::memory::{byte_at, store_word, word_at, wrap_add, wrap_mul, wrap_sub, MEMSIZE};
use crate::opcode::{spec_arity, spec_decode_opcode, OpCode};
use crate::register::{spec_decode_register, Register};

verus! {

/// Why the engine faulted. A fault is terminal: no further bytes are fetched.
#[derive(Clone, Copy, PartialEq, Eq, Structural, Debug)]
pub enum Fault {
    /// The byte at address `ip` decodes to no operation; `opcode` is that byte.
    IllegalOpcode { opcode: u8, ip: u32 },
    /// A `DIV` whose divisor read as zero; `ip` is the address of its opcode byte.
    DivideByZero { ip: u32 },
}

/// The engine's state. `Halted` and `Faulted` are terminal.
#[derive(Clone, Copy, PartialEq, Eq, Structural, Debug)]
pub enum State {
    Running,
    Halted,
    Faulted(Fault),
}

/// What one cycle reports to the caller.
#[derive(Clone, Copy, PartialEq, Eq, Structural, Debug)]
pub enum StepEvent {
    /// An instruction completed and the engine is still running.
    Ran,
    /// `HLT` executed, or the engine was already halted.
    Halted,
    /// The engine faulted now, or was already faulted.
    Faulted(Fault),
    /// `SYS` executed: the host must handle syscall `id` with argument `arg`
    /// and hand its 32-bit result back (conventionally into register `R`).
    Syscall { id: u32, arg: u32 },
}

/// A snapshot of the whole machine, the model every contract speaks of.
pub ghost struct Vm {
    pub a: u32,
    pub b: u32,
    pub c: u32,
    pub d: u32,
    pub r: u32,
    pub o: u32,
    pub sp: u32,
    pub ip: u32,
    /// The memory contents, always [`MEMSIZE`] bytes.
    pub mem: Seq<u8>,
    pub state: State,
    /// How many writes to `Constant` operands have been recorded (each is a
    /// no-op plus this diagnostic, never a fault).
    pub const_writes: u64,
}

/// A snapshot is well formed when its memory has the full buffer size.
pub open spec fn vm_wf(vm: Vm) -> bool {
    vm.mem.len() == MEMSIZE
}

/// Comparison flag: the left operand was below the right.
pub const FLAG_LT: u32 = 0x1;

/// Comparison flag: the operands were equal.
pub const FLAG_EQ: u32 = 0x2;

/// Comparison flag: the left operand was above the right.
pub const FLAG_GT: u32 = 0x4;

/// Operand mode tag: 4-byte immediate constant.
pub const MODE_CONSTANT: u8 = 0x00;

/// Operand mode tag: 4-byte direct memory offset.
pub const MODE_DIRECT: u8 = 0x01;

/// Operand mode tag: 1-byte register whose value names a memory cell.
pub const MODE_REGISTER_INDIRECT: u8 = 0x02;

/// Operand mode tag: 1-byte register operand.
pub const MODE_REGISTER: u8 = 0x03;

/// The value of a register in a snapshot.
pub open spec fn read_reg(vm: Vm, reg: Register) -> u32 {
    match reg {
        Register::A => vm.a,
        Register::B => vm.b,
        Register::C => vm.c,
        Register::D => vm.d,
        Register::R => vm.r,
        Register::O => vm.o,
        Register::SP => vm.sp,
        Register::IP => vm.ip,
    }
}

/// The snapshot after storing `v` into a register.
pub open spec fn write_reg(vm: Vm, reg: Register, v: u32) -> Vm {
    match reg {
        Register::A => Vm { a: v, ..vm },
        Register::B => Vm { b: v, ..vm },
        Register::C => Vm { c: v, ..vm },
        Register::D => Vm { d: v, ..vm },
        Register::R => Vm { r: v, ..vm },
        Register::O => Vm { o: v, ..vm },
        Register::SP => Vm { sp: v, ..vm },
        Register::IP => Vm { ip: v, ..vm },
    }
}

/// The effective address of a memory operand: every memory-relative access
/// is offset by the origin register `O`.
pub open spec fn effective_addr(vm: Vm, off: u32) -> u32 {
    wrap_add(vm.o, off)
}

/// The 32-bit value an operand reads in a snapshot.
pub open spec fn read_arg(vm: Vm, arg: Argument) -> u32 {
    match arg {
        Argument::Constant(con) => con.val,
        Argument::DirectAddress(da) => word_at(vm.mem, effective_addr(vm, da.addr)),
        Argument::RegisterIndirect(ra) => word_at(
            vm.mem,
            effective_addr(vm, read_reg(vm, ra.reg)),
        ),
        Argument::Register(reg) => read_reg(vm, reg),
    }
}

/// The snapshot after an operand is written. A write to a `Constant` changes
/// nothing but the diagnostic counter.
pub open spec fn write_arg(vm: Vm, arg: Argument, v: u32) -> Vm {
    match arg {
        Argument::Constant(_) => Vm {
            const_writes: vstd::wrapping::u64_specs::wrapping_add(vm.const_writes, 1),
            ..vm
        },
        Argument::DirectAddress(da) => Vm {
            mem: store_word(vm.mem, effective_addr(vm, da.addr), v),
            ..vm
        },
        Argument::RegisterIndirect(ra) => Vm {
            mem: store_word(vm.mem, effective_addr(vm, read_reg(vm, ra.reg)), v),
            ..vm
        },
        Argument::Register(reg) => write_reg(vm, reg, v),
    }
}

/// The operand encoded at address `pos`: a mode byte (low 2 bits) and its payload.
pub open spec fn decode_arg(mem: Seq<u8>, pos: u32) -> Argument {
    let m = byte_at(mem, pos) & 0x03;
    if m == MODE_CONSTANT {
        Argument::Constant(Constant { val: word_at(mem, wrap_add(pos, 1)) })
    } else if m == MODE_DIRECT {
        Argument::DirectAddress(DirectAddress { addr: word_at(mem, wrap_add(pos, 1)) })
    } else if m == MODE_REGISTER_INDIRECT {
        Argument::RegisterIndirect(
            RegisterAddress { reg: spec_decode_register(byte_at(mem, wrap_add(pos, 1))) },
        )
    } else {
        Argument::Register(spec_decode_register(byte_at(mem, wrap_add(pos, 1))))
    }
}

/// How many bytes the operand encoded at `pos` occupies, mode byte included.
pub open spec fn arg_len(mem: Seq<u8>, pos: u32) -> u32 {
    let m = byte_at(mem, pos) & 0x03;
    if m == MODE_CONSTANT || m == MODE_DIRECT {
        5
    } else {
        2
    }
}

/// The flag word `CMP` records for an unsigned comparison of `x` with `y`.
pub open spec fn cmp_flags(x: u32, y: u32) -> u32 {
    if x < y {
        FLAG_LT
    } else if x == y {
        FLAG_EQ
    } else {
        FLAG_GT
    }
}

/// Whether a conditional jump takes its branch, given the flag word in `R`.
/// The flags are consulted, never cleared.
pub open spec fn branch_taken(op: OpCode, flags: u32) -> bool {
    match op {
        OpCode::JEQ => flags & FLAG_EQ != 0,
        OpCode::JNE => flags & FLAG_EQ == 0,
        OpCode::JLT => flags & FLAG_LT != 0,
        OpCode::JLE => flags & (FLAG_LT | FLAG_EQ) != 0,
        OpCode::JGT => flags & FLAG_GT != 0,
        OpCode::JGE => flags & (FLAG_GT | FLAG_EQ) != 0,
        _ => false,
    }
}

/// Semantics of the zero-operand operations, on a snapshot whose `ip` has
/// already advanced past the instruction.
pub open spec fn step_op0(vm: Vm, op: OpCode) -> (Vm, StepEvent) {
    match op {
        OpCode::HLT => (Vm { state: State::Halted, ..vm }, StepEvent::Halted),
        OpCode::NOP => (vm, StepEvent::Ran),
        OpCode::SYS => (vm, StepEvent::Syscall { id: vm.a, arg: vm.b }),
        OpCode::RET => (
            Vm { ip: word_at(vm.mem, wrap_add(vm.o, vm.sp)), sp: wrap_add(vm.sp, 4), ..vm },
            StepEvent::Ran,
        ),
        _ => (vm, StepEvent::Ran),
    }
}

/// Semantics of the one-operand operations, on a snapshot whose `ip` has
/// already advanced past the instruction.
pub open spec fn step_op1(vm: Vm, op: OpCode, arg: Argument) -> (Vm, StepEvent) {
    match op {
        OpCode::JMP => (Vm { ip: read_arg(vm, arg), ..vm }, StepEvent::Ran),
        OpCode::JEQ | OpCode::JNE | OpCode::JLT | OpCode::JLE | OpCode::JGT | OpCode::JGE => (
            if branch_taken(op, vm.r) {
                Vm { ip: read_arg(vm, arg), ..vm }
            } else {
                vm
            },
            StepEvent::Ran,
        ),
        OpCode::CALL => {
            let target = read_arg(vm, arg);
            let sp2 = wrap_sub(vm.sp, 4);
            let mem2 = store_word(vm.mem, wrap_add(vm.o, sp2), vm.ip);
            (Vm { ip: target, sp: sp2, mem: mem2, ..vm }, StepEvent::Ran)
        },
        OpCode::PUSH => {
            let v = read_arg(vm, arg);
            let sp2 = wrap_sub(vm.sp, 4);
            (
                Vm { sp: sp2, mem: store_word(vm.mem, wrap_add(vm.o, sp2), v), ..vm },
                StepEvent::Ran,
            )
        },
        OpCode::POP => {
            let v = word_at(vm.mem, wrap_add(vm.o, vm.sp));
            let vm2 = write_arg(vm, arg, v);
            (Vm { sp: wrap_add(vm2.sp, 4), ..vm2 }, StepEvent::Ran)
        },
        OpCode::INC => (write_arg(vm, arg, wrap_add(read_arg(vm, arg), 1)), StepEvent::Ran),
        OpCode::DEC => (write_arg(vm, arg, wrap_sub(read_arg(vm, arg), 1)), StepEvent::Ran),
        OpCode::NOT => (
            write_arg(vm, arg, read_arg(vm, arg) ^ 0xFFFF_FFFFu32),
            StepEvent::Ran,
        ),
        _ => (vm, StepEvent::Ran),
    }
}

/// Semantics of the two-operand operations. `ip0` is the address of the
/// opcode byte, recorded by a division fault. Both operands are read before
/// anything is written; the first operand is the destination.
pub open spec fn step_op2(vm: Vm, op: OpCode, a1: Argument, a2: Argument, ip0: u32) -> (
    Vm,
    StepEvent,
) {
    let x = read_arg(vm, a1);
    let y = read_arg(vm, a2);
    match op {
        OpCode::CMP => (Vm { r: cmp_flags(x, y), ..vm }, StepEvent::Ran),
        OpCode::ST | OpCode::LD => (write_arg(vm, a1, y), StepEvent::Ran),
        OpCode::XOR => (write_arg(vm, a1, x ^ y), StepEvent::Ran),
        OpCode::AND => (write_arg(vm, a1, x & y), StepEvent::Ran),
        OpCode::OR => (write_arg(vm, a1, x | y), StepEvent::Ran),
        OpCode::ADD => (write_arg(vm, a1, wrap_add(x, y)), StepEvent::Ran),
        OpCode::SUB => (write_arg(vm, a1, wrap_sub(x, y)), StepEvent::Ran),
        OpCode::MUL => (write_arg(vm, a1, wrap_mul(x, y)), StepEvent::Ran),
        OpCode::DIV => {
            if y == 0 {
                let f = Fault::DivideByZero { ip: ip0 };
                (Vm { state: State::Faulted(f), ..vm }, StepEvent::Faulted(f))
            } else {
                (write_arg(vm, a1, x / y), StepEvent::Ran)
            }
        },
        _ => (vm, StepEvent::Ran),
    }
}

/// One fetch-decode-execute cycle of a running machine: fetch the opcode at
/// `ip`; fault on the sentinel without consuming anything further; otherwise
/// decode the declared operands, advance `ip` past the whole instruction
/// before executing, and apply the operation's semantics.
pub open spec fn step_spec(vm: Vm) -> (Vm, StepEvent) {
    let ip0 = vm.ip;
    let opb = byte_at(vm.mem, ip0);
    let op = spec_decode_opcode(opb);
    if op == OpCode::Unimplemented {
        let f = Fault::IllegalOpcode { opcode: opb, ip: ip0 };
        (Vm { state: State::Faulted(f), ..vm }, StepEvent::Faulted(f))
    } else if spec_arity(op) == 0 {
        step_op0(Vm { ip: wrap_add(ip0, 1), ..vm }, op)
    } else if spec_arity(op) == 1 {
        let pos = wrap_add(ip0, 1);
        let arg = decode_arg(vm.mem, pos);
        step_op1(Vm { ip: wrap_add(pos, arg_len(vm.mem, pos)), ..vm }, op, arg)
    } else {
        let pos1 = wrap_add(ip0, 1);
        let a1 = decode_arg(vm.mem, pos1);
        let pos2 = wrap_add(pos1, arg_len(vm.mem, pos1));
        let a2 = decode_arg(vm.mem, pos2);
        step_op2(Vm { ip: wrap_add(pos2, arg_len(vm.mem, pos2)), ..vm }, op, a1, a2, ip0)
    }
}

/// One cycle of the machine in any state: terminal states only report
/// themselves and change nothing.
pub open spec fn step_total_spec(vm: Vm) -> (Vm, StepEvent) {
    match vm.state {
        State::Running => step_spec(vm),
        State::Halted => (vm, StepEvent::Halted),
        State::Faulted(f) => (vm, StepEvent::Faulted(f)),
    }
}

/// Up to `fuel` cycles: stops at the first cycle that reports anything other
/// than `Ran` and hands that event on; reports `Ran` if the budget is spent
/// with the machine still running. The budget is the caller's scheduling
/// policy, not part of the machine.
pub open spec fn run_spec(vm: Vm, fuel: nat) -> (Vm, StepEvent)
    decreases fuel,
{
    if fuel == 0 {
        (vm, StepEvent::Ran)
    } else {
        let (vm2, e) = step_total_spec(vm);
        if e == StepEvent::Ran {
            run_spec(vm2, (fuel - 1) as nat)
        } else {
            (vm2, e)
        }
    }
}

/// Writing a register never touches memory.
pub proof fn lemma_write_reg_wf(vm: Vm, reg: Register, v: u32)
    requires
        vm_wf(vm),
    ensures
        vm_wf(write_reg(vm, reg, v)),
{
    match reg {
        Register::A => {},
        Register::B => {},
        Register::C => {},
        Register::D => {},
        Register::R => {},
        Register::O => {},
        Register::SP => {},
        Register::IP => {},
    }
}

/// Storing a word never changes the size of memory: the masked address and
/// the three bytes after it are all in bounds.
pub proof fn lemma_store_word_len(mem: Seq<u8>, addr: u32, val: u32)
    requires
        mem.len() == MEMSIZE,
    ensures
        store_word(mem, addr, val).len() == mem.len(),
{
    assert(addr & 0x00FF_FFFF < 0x0100_0000) by (bit_vector);
}

/// Writing an operand never changes the size of memory.
pub proof fn lemma_write_arg_wf(vm: Vm, arg: Argument, v: u32)
    requires
        vm_wf(vm),
    ensures
        vm_wf(write_arg(vm, arg, v)),
{
    match arg {
        Argument::Constant(_) => {},
        Argument::DirectAddress(da) => {
            lemma_store_word_len(vm.mem, effective_addr(vm, da.addr), v);
        },
        Argument::RegisterIndirect(ra) => {
            lemma_store_word_len(vm.mem, effective_addr(vm, read_reg(vm, ra.reg)), v);
        },
        Argument::Register(reg) => {
            lemma_write_reg_wf(vm, reg, v);
        },
    }
}

/// Every cycle preserves well-formedness: memory never changes size.
pub proof fn lemma_step_preserves_wf(vm: Vm)
    requires
        vm_wf(vm),
    ensures
        vm_wf(step_total_spec(vm).0),
{
    match vm.state {
        State::Halted => {},
        State::Faulted(_) => {},
        State::Running => {
            let ip0 = vm.ip;
            let op = spec_decode_opcode(byte_at(vm.mem, ip0));
            if op == OpCode::Unimplemented {
            } else if spec_arity(op) == 0 {
                let vm1 = Vm { ip: wrap_add(ip0, 1), ..vm };
                assert(vm_wf(step_op0(vm1, op).0));
            } else if spec_arity(op) == 1 {
                let pos = wrap_add(ip0, 1);
                let arg = decode_arg(vm.mem, pos);
                let vm1 = Vm { ip: wrap_add(pos, arg_len(vm.mem, pos)), ..vm };
                match op {
                    OpCode::CALL => {
                        lemma_store_word_len(
                            vm1.mem,
                            wrap_add(vm1.o, wrap_sub(vm1.sp, 4)),
                            vm1.ip,
                        );
                    },
                    OpCode::PUSH => {
                        lemma_store_word_len(
                            vm1.mem,
                            wrap_add(vm1.o, wrap_sub(vm1.sp, 4)),
                            read_arg(vm1, arg),
                        );
                    },
                    OpCode::POP => {
                        let v = word_at(vm1.mem, wrap_add(vm1.o, vm1.sp));
                        lemma_write_arg_wf(vm1, arg, v);
                    },
                    OpCode::INC => {
                        lemma_write_arg_wf(vm1, arg, wrap_add(read_arg(vm1, arg), 1));
                    },
                    OpCode::DEC => {
                        lemma_write_arg_wf(vm1, arg, wrap_sub(read_arg(vm1, arg), 1));
                    },
                    OpCode::NOT => {
                        lemma_write_arg_wf(vm1, arg, read_arg(vm1, arg) ^ 0xFFFF_FFFFu32);
                    },
                    _ => {
                        assert(vm_wf(step_op1(vm1, op, arg).0));
                    },
                }
            } else {
                let pos1 = wrap_add(ip0, 1);
                let a1 = decode_arg(vm.mem, pos1);
                let pos2 = wrap_add(pos1, arg_len(vm.mem, pos1));
                let a2 = decode_arg(vm.mem, pos2);
                let vm1 = Vm { ip: wrap_add(pos2, arg_len(vm.mem, pos2)), ..vm };
                let x = read_arg(vm1, a1);
                let y = read_arg(vm1, a2);
                match op {
                    OpCode::CMP => {},
                    OpCode::ST | OpCode::LD => {
                        lemma_write_arg_wf(vm1, a1, y);
                    },
                    OpCode::XOR => {
                        lemma_write_arg_wf(vm1, a1, x ^ y);
                    },
                    OpCode::AND => {
                        lemma_write_arg_wf(vm1, a1, x & y);
                    },
                    OpCode::OR => {
                        lemma_write_arg_wf(vm1, a1, x | y);
                    },
                    OpCode::ADD => {
                        lemma_write_arg_wf(vm1, a1, wrap_add(x, y));
                    },
                    OpCode::SUB => {
                        lemma_write_arg_wf(vm1, a1, wrap_sub(x, y));
                    },
                    OpCode::MUL => {
                        lemma_write_arg_wf(vm1, a1, wrap_mul(x, y));
                    },
                    OpCode::DIV => {
                        if y != 0 {
                            lemma_write_arg_wf(vm1, a1, x / y);
                        }
                    },
                    _ => {},
                }
            }
        },
    }
}

} // verus!
