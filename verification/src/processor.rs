//! The executable processor: one memory, eight registers, and the
//! fetch-decode-execute loop, proved to follow the machine model in
//! [`crate::engine`] cycle for cycle.
//!
//! `SYS` hands a syscall to the host: [`Processor::step`] (or
//! [`Processor::run`]) reports [`StepEvent::Syscall`] with the identifier
//! from register `A` and the argument from register `B`; the host performs
//! the call and hands the 32-bit result back through
//! [`Processor::syscall_return`], which stores it in register `R`, then
//! resumes stepping.

use vstd::prelude::*;
use crate::argument::{Argument, Constant, DirectAddress, RegisterAddress};
use crate::engine::{
    arg_len, decode_arg, lemma_write_reg_wf, read_arg, read_reg, run_spec, step_op0, step_op1,
    step_op2, step_total_spec, write_arg, write_reg, branch_taken, Fault, State, StepEvent, Vm,
    vm_wf, FLAG_EQ, FLAG_GT, FLAG_LT, MODE_CONSTANT, MODE_DIRECT, MODE_REGISTER_INDIRECT,
};
use crate::memory::{Memory, MEMSIZE};
use crate::opcode::OpCode;
use crate::register::Register;

verus! {

/// The machine: its memory, the eight registers, the engine state and the
/// diagnostic counter for writes to constant operands.
pub struct Processor {
    a: u32,
    b: u32,
    c: u32,
    d: u32,
    r: u32,
    o: u32,
    sp: u32,
    ip: u32,
    mem: Memory,
    state: State,
    const_writes: u64,
}

impl View for Processor {
    type V = Vm;

    closed spec fn view(&self) -> Vm {
        Vm {
            a: self.a,
            b: self.b,
            c: self.c,
            d: self.d,
            r: self.r,
            o: self.o,
            sp: self.sp,
            ip: self.ip,
            mem: self.mem@,
            state: self.state,
            const_writes: self.const_writes,
        }
    }
}

impl Processor {
    /// The snapshot of this processor is well formed.
    pub open spec fn wf(&self) -> bool {
        vm_wf(self@)
    }

    /// A processor with zeroed memory and registers, ready to run.
    pub fn new() -> (p: Processor)
        ensures
            p.wf(),
            p@.a == 0 && p@.b == 0 && p@.c == 0 && p@.d == 0,
            p@.r == 0 && p@.o == 0 && p@.sp == 0 && p@.ip == 0,
            p@.state == State::Running,
            p@.const_writes == 0,
            forall|i: int| 0 <= i < MEMSIZE ==> p@.mem[i] == 0u8,
    {
        Processor {
            a: 0,
            b: 0,
            c: 0,
            d: 0,
            r: 0,
            o: 0,
            sp: 0,
            ip: 0,
            mem: Memory::new(),
            state: State::Running,
            const_writes: 0,
        }
    }

    /// A processor whose memory holds `code` at address 0 and zero elsewhere,
    /// with all registers zero. The program must fit the address space.
    pub fn load(code: &Vec<u8>) -> (p: Processor)
        requires
            code@.len() <= 0x0100_0000,
        ensures
            p.wf(),
            p@.a == 0 && p@.b == 0 && p@.c == 0 && p@.d == 0,
            p@.r == 0 && p@.o == 0 && p@.sp == 0 && p@.ip == 0,
            p@.state == State::Running,
            p@.const_writes == 0,
            forall|i: int| 0 <= i < code@.len() ==> p@.mem[i] == code@[i],
            forall|i: int| code@.len() <= i < MEMSIZE ==> p@.mem[i] == 0u8,
    {
        Processor {
            a: 0,
            b: 0,
            c: 0,
            d: 0,
            r: 0,
            o: 0,
            sp: 0,
            ip: 0,
            mem: Memory::load(code),
            state: State::Running,
            const_writes: 0,
        }
    }

    /// Reads one of the eight registers (the introspection surface for hosts).
    pub fn get_reg(&self, reg: Register) -> (v: u32)
        ensures
            v == read_reg(self@, reg),
    {
        match reg {
            Register::A => self.a,
            Register::B => self.b,
            Register::C => self.c,
            Register::D => self.d,
            Register::R => self.r,
            Register::O => self.o,
            Register::SP => self.sp,
            Register::IP => self.ip,
        }
    }

    /// Writes one of the eight registers (the introspection surface for hosts).
    pub fn set_reg(&mut self, reg: Register, v: u32)
        ensures
            final(self)@ == write_reg(old(self)@, reg, v),
    {
        match reg {
            Register::A => self.a = v,
            Register::B => self.b = v,
            Register::C => self.c = v,
            Register::D => self.d = v,
            Register::R => self.r = v,
            Register::O => self.o = v,
            Register::SP => self.sp = v,
            Register::IP => self.ip = v,
        }
    }

    /// The engine's state.
    pub fn state(&self) -> (s: State)
        ensures
            s == self@.state,
    {
        self.state
    }

    /// How many writes to constant operands have been recorded.
    pub fn const_write_count(&self) -> (n: u64)
        ensures
            n == self@.const_writes,
    {
        self.const_writes
    }

    /// Completes a `SYS` trap: stores the host's result in register `R`.
    pub fn syscall_return(&mut self, result: u32)
        ensures
            final(self)@ == write_reg(old(self)@, Register::R, result),
    {
        self.set_reg(Register::R, result);
    }

    /// Decodes the operand at `ip` (mode byte plus payload) and advances `ip`
    /// past it.
    fn fetch_arg(&mut self) -> (arg: Argument)
        requires
            old(self).wf(),
        ensures
            final(self).wf(),
            arg == decode_arg(old(self)@.mem, old(self)@.ip),
            final(self)@ == (Vm {
                ip: crate::memory::wrap_add(
                    old(self)@.ip,
                    arg_len(old(self)@.mem, old(self)@.ip),
                ),
                ..old(self)@
            }),
    {
        let pos = self.ip;
        let mode = self.mem.read_byte(pos) & 0x03;
        if mode == MODE_CONSTANT {
            let v = self.mem.read_u32(pos.wrapping_add(1));
            self.ip = pos.wrapping_add(5);
            Argument::Constant(Constant { val: v })
        } else if mode == MODE_DIRECT {
            let a = self.mem.read_u32(pos.wrapping_add(1));
            self.ip = pos.wrapping_add(5);
            Argument::DirectAddress(DirectAddress { addr: a })
        } else if mode == MODE_REGISTER_INDIRECT {
            let rb = self.mem.read_byte(pos.wrapping_add(1));
            self.ip = pos.wrapping_add(2);
            Argument::RegisterIndirect(RegisterAddress { reg: Register::decode(rb) })
        } else {
            let rb = self.mem.read_byte(pos.wrapping_add(1));
            self.ip = pos.wrapping_add(2);
            Argument::Register(Register::decode(rb))
        }
    }

    /// Whether a conditional jump takes its branch under the given flags.
    fn branch(op: OpCode, flags: u32) -> (t: bool)
        ensures
            t == branch_taken(op, flags),
    {
        match op {
            OpCode::JEQ => flags & FLAG_EQ != 0,
            OpCode::JNE => flags & FLAG_EQ == 0,
            OpCode::JLT => flags & FLAG_LT != 0,
            OpCode::JLE => flags & (FLAG_LT | FLAG_EQ) != 0,
            OpCode::JGT => flags & FLAG_GT != 0,
            OpCode::JGE => flags & (FLAG_GT | FLAG_EQ) != 0,
            _ => false,
        }
    }

    /// Executes a zero-operand operation; `ip` has already advanced.
    fn do_op0(&mut self, op: OpCode) -> (e: StepEvent)
        requires
            old(self).wf(),
        ensures
            final(self).wf(),
            (final(self)@, e) == step_op0(old(self)@, op),
    {
        match op {
            OpCode::HLT => {
                self.state = State::Halted;
                StepEvent::Halted
            },
            OpCode::SYS => StepEvent::Syscall { id: self.a, arg: self.b },
            OpCode::RET => {
                let v = self.mem.read_u32(self.o.wrapping_add(self.sp));
                self.sp = self.sp.wrapping_add(4);
                self.ip = v;
                StepEvent::Ran
            },
            _ => StepEvent::Ran,
        }
    }

    /// Executes a one-operand operation; `ip` has already advanced past the
    /// whole instruction.
    fn do_op1(&mut self, op: OpCode, arg: Argument) -> (e: StepEvent)
        requires
            old(self).wf(),
        ensures
            final(self).wf(),
            (final(self)@, e) == step_op1(old(self)@, op, arg),
    {
        match op {
            OpCode::JMP => {
                let target = arg.read(self);
                self.ip = target;
                StepEvent::Ran
            },
            OpCode::JEQ | OpCode::JNE | OpCode::JLT | OpCode::JLE | OpCode::JGT | OpCode::JGE => {
                if Self::branch(op, self.r) {
                    let target = arg.read(self);
                    self.ip = target;
                }
                StepEvent::Ran
            },
            OpCode::CALL => {
                let target = arg.read(self);
                let sp2 = self.sp.wrapping_sub(4);
                let ea = self.o.wrapping_add(sp2);
                let ret = self.ip;
                self.mem.write_u32(ea, ret);
                self.sp = sp2;
                self.ip = target;
                StepEvent::Ran
            },
            OpCode::PUSH => {
                let v = arg.read(self);
                let sp2 = self.sp.wrapping_sub(4);
                let ea = self.o.wrapping_add(sp2);
                self.mem.write_u32(ea, v);
                self.sp = sp2;
                StepEvent::Ran
            },
            OpCode::POP => {
                let v = self.mem.read_u32(self.o.wrapping_add(self.sp));
                arg.write(self, v);
                self.sp = self.sp.wrapping_add(4);
                StepEvent::Ran
            },
            OpCode::INC => {
                let x = arg.read(self);
                arg.write(self, x.wrapping_add(1));
                StepEvent::Ran
            },
            OpCode::DEC => {
                let x = arg.read(self);
                arg.write(self, x.wrapping_sub(1));
                StepEvent::Ran
            },
            OpCode::NOT => {
                let x = arg.read(self);
                arg.write(self, x ^ 0xFFFF_FFFF);
                StepEvent::Ran
            },
            _ => StepEvent::Ran,
        }
    }

    /// Executes a two-operand operation; both operands are read before any
    /// write, and the first operand is the destination. `ip0` is the address
    /// of the opcode byte, recorded by a division fault.
    fn do_op2(&mut self, op: OpCode, a1: Argument, a2: Argument, ip0: u32) -> (e: StepEvent)
        requires
            old(self).wf(),
        ensures
            final(self).wf(),
            (final(self)@, e) == step_op2(old(self)@, op, a1, a2, ip0),
    {
        let x = a1.read(self);
        let y = a2.read(self);
        match op {
            OpCode::CMP => {
                self.r = if x < y {
                    FLAG_LT
                } else if x == y {
                    FLAG_EQ
                } else {
                    FLAG_GT
                };
                StepEvent::Ran
            },
            OpCode::ST | OpCode::LD => {
                a1.write(self, y);
                StepEvent::Ran
            },
            OpCode::XOR => {
                a1.write(self, x ^ y);
                StepEvent::Ran
            },
            OpCode::AND => {
                a1.write(self, x & y);
                StepEvent::Ran
            },
            OpCode::OR => {
                a1.write(self, x | y);
                StepEvent::Ran
            },
            OpCode::ADD => {
                a1.write(self, x.wrapping_add(y));
                StepEvent::Ran
            },
            OpCode::SUB => {
                a1.write(self, x.wrapping_sub(y));
                StepEvent::Ran
            },
            OpCode::MUL => {
                a1.write(self, x.wrapping_mul(y));
                StepEvent::Ran
            },
            OpCode::DIV => {
                if y == 0 {
                    let f = Fault::DivideByZero { ip: ip0 };
                    self.state = State::Faulted(f);
                    StepEvent::Faulted(f)
                } else {
                    a1.write(self, x / y);
                    StepEvent::Ran
                }
            },
            _ => StepEvent::Ran,
        }
    }

    /// One fetch-decode-execute cycle, exactly as the model's
    /// [`step_total_spec`] describes it. In a terminal state the machine
    /// changes nothing and only reports that state.
    pub fn step(&mut self) -> (e: StepEvent)
        requires
            old(self).wf(),
        ensures
            final(self).wf(),
            (final(self)@, e) == step_total_spec(old(self)@),
    {
        match self.state {
            State::Halted => {
                return StepEvent::Halted;
            },
            State::Faulted(f) => {
                return StepEvent::Faulted(f);
            },
            State::Running => {},
        }
        let ip0 = self.ip;
        let opb = self.mem.read_byte(ip0);
        let op = OpCode::decode(opb);
        if op == OpCode::Unimplemented {
            let f = Fault::IllegalOpcode { opcode: opb, ip: ip0 };
            self.state = State::Faulted(f);
            return StepEvent::Faulted(f);
        }
        self.ip = ip0.wrapping_add(1);
        let n = op.arity();
        if n == 0 {
            self.do_op0(op)
        } else if n == 1 {
            let arg = self.fetch_arg();
            self.do_op1(op, arg)
        } else {
            let a1 = self.fetch_arg();
            let a2 = self.fetch_arg();
            self.do_op2(op, a1, a2, ip0)
        }
    }

    /// Runs up to `fuel` cycles, stopping at the first cycle that halts,
    /// faults or traps into a syscall, and reports that event; reports
    /// [`StepEvent::Ran`] when the budget is spent with the machine still
    /// running. The budget is the host's scheduling policy, not part of the
    /// machine: a program can be resumed with more fuel.
    pub fn run(&mut self, fuel: u64) -> (e: StepEvent)
        requires
            old(self).wf(),
        ensures
            final(self).wf(),
            (final(self)@, e) == run_spec(old(self)@, fuel as nat),
    {
        let mut remaining: u64 = fuel;
        loop
            invariant
                self.wf(),
                run_spec(old(self)@, fuel as nat) == run_spec(self@, remaining as nat),
            decreases remaining,
        {
            if remaining == 0 {
                return StepEvent::Ran;
            }
            let e = self.step();
            if e == StepEvent::Ran {
                remaining = remaining - 1;
            } else {
                return e;
            }
        }
    }
}

impl Argument {
    /// Resolves the operand to its 32-bit value; total for every kind.
    pub fn read(&self, cpu: &Processor) -> (v: u32)
        requires
            cpu.wf(),
        ensures
            v == read_arg(cpu@, *self),
    {
        match self {
            Argument::Constant(con) => con.val,
            Argument::DirectAddress(da) => cpu.mem.read_u32(cpu.o.wrapping_add(da.addr)),
            Argument::RegisterIndirect(ra) => {
                let base = cpu.get_reg(ra.reg);
                cpu.mem.read_u32(cpu.o.wrapping_add(base))
            },
            Argument::Register(reg) => cpu.get_reg(*reg),
        }
    }

    /// Writes a 32-bit value through the operand. A write to a `Constant` is
    /// a recorded no-op, never a fault; every other kind performs exactly one
    /// 32-bit store.
    pub fn write(&self, cpu: &mut Processor, v: u32)
        requires
            old(cpu).wf(),
        ensures
            final(cpu).wf(),
            final(cpu)@ == write_arg(old(cpu)@, *self, v),
    {
        match self {
            Argument::Constant(_) => {
                cpu.const_writes = cpu.const_writes.wrapping_add(1);
            },
            Argument::DirectAddress(da) => {
                let ea = cpu.o.wrapping_add(da.addr);
                cpu.mem.write_u32(ea, v);
            },
            Argument::RegisterIndirect(ra) => {
                let base = cpu.get_reg(ra.reg);
                let ea = cpu.o.wrapping_add(base);
                cpu.mem.write_u32(ea, v);
            },
            Argument::Register(reg) => {
                cpu.set_reg(*reg, v);
                proof {
                    lemma_write_reg_wf(old(cpu)@, *reg, v);
                }
            },
        }
    }
}

} // verus!
