use eafis_vm::argument::{Argument, Constant, DirectAddress, RegisterAddress};
use eafis_vm::engine::{Fault, State, StepEvent};
use eafis_vm::processor::Processor;
use eafis_vm::register::Register;

const FUEL: u64 = 1000;

#[test]
fn scenario_hlt_halts_after_one_byte() {
    let code: Vec<u8> = vec![0x00]; // HLT
    let mut p = Processor::load(&code);
    let e = p.run(FUEL);
    assert_eq!(e, StepEvent::Halted);
    assert_eq!(p.state(), State::Halted);
    assert_eq!(p.get_reg(Register::IP), 1);
    for reg in [
        Register::A,
        Register::B,
        Register::C,
        Register::D,
        Register::R,
        Register::O,
        Register::SP,
    ] {
        assert_eq!(p.get_reg(reg), 0);
    }
}

#[test]
fn scenario_push_pop_restores_stack_cursor() {
    let code: Vec<u8> = vec![
        0x21, 0x00, 0x05, 0x00, 0x00, 0x00, // PUSH const 5
        0x22, 0x03, 0x01, // POP reg B
        0x00, // HLT
    ];
    let mut p = Processor::load(&code);
    let e = p.run(FUEL);
    assert_eq!(e, StepEvent::Halted);
    assert_eq!(p.get_reg(Register::B), 5);
    assert_eq!(p.get_reg(Register::SP), 0); // back to its pre-PUSH value
}

#[test]
fn scenario_add_wraps_without_fault() {
    let code: Vec<u8> = vec![
        0x44, 0x03, 0x00, 0x00, 0x01, 0x00, 0x00, 0x00, // ADD reg A, const 1
        0x00, // HLT
    ];
    let mut p = Processor::load(&code);
    p.set_reg(Register::A, 0xFFFF_FFFF);
    let e = p.run(FUEL);
    assert_eq!(e, StepEvent::Halted);
    assert_eq!(p.get_reg(Register::A), 0x0000_0000);
    assert_eq!(p.state(), State::Halted);
}

#[test]
fn scenario_call_then_ret_returns_past_the_call() {
    let code: Vec<u8> = vec![
        0x20, 0x00, 0x08, 0x00, 0x00, 0x00, // 0: CALL const 8 (next instruction is at 6)
        0x01, // 6: NOP
        0x01, // 7: NOP
        0x03, // 8: RET
    ];
    let mut p = Processor::load(&code);
    let e1 = p.step();
    assert_eq!(e1, StepEvent::Ran);
    assert_eq!(p.get_reg(Register::IP), 8); // jumped to the call target
    let e2 = p.step();
    assert_eq!(e2, StepEvent::Ran);
    // After RET, IP is the address immediately following the CALL's bytes.
    assert_eq!(p.get_reg(Register::IP), 6);
    assert_eq!(p.get_reg(Register::SP), 0);
}

#[test]
fn scenario_illegal_opcode_faults_with_byte_and_address() {
    let code: Vec<u8> = vec![0x01, 0x50]; // NOP, then an unassigned opcode byte
    let mut p = Processor::load(&code);
    let e = p.run(FUEL);
    let expected = Fault::IllegalOpcode { opcode: 0x50, ip: 1 };
    assert_eq!(e, StepEvent::Faulted(expected));
    assert_eq!(p.state(), State::Faulted(expected));
    // No further bytes were fetched: IP still points at the faulting byte,
    // and stepping again changes nothing.
    assert_eq!(p.get_reg(Register::IP), 1);
    assert_eq!(p.step(), StepEvent::Faulted(expected));
    assert_eq!(p.get_reg(Register::IP), 1);
}

#[test]
fn division_by_zero_faults() {
    let code: Vec<u8> = vec![
        0x47, 0x03, 0x00, 0x00, 0x00, 0x00, 0x00, 0x00, // DIV reg A, const 0
    ];
    let mut p = Processor::load(&code);
    p.set_reg(Register::A, 10);
    let e = p.run(FUEL);
    let expected = Fault::DivideByZero { ip: 0 };
    assert_eq!(e, StepEvent::Faulted(expected));
    assert_eq!(p.state(), State::Faulted(expected));
    assert_eq!(p.get_reg(Register::A), 10); // destination untouched
}

#[test]
fn division_truncates_toward_zero() {
    let code: Vec<u8> = vec![
        0x47, 0x03, 0x00, 0x00, 0x03, 0x00, 0x00, 0x00, // DIV reg A, const 3
        0x00, // HLT
    ];
    let mut p = Processor::load(&code);
    p.set_reg(Register::A, 10);
    assert_eq!(p.run(FUEL), StepEvent::Halted);
    assert_eq!(p.get_reg(Register::A), 3);
}

#[test]
fn write_to_constant_is_a_recorded_no_op() {
    let code: Vec<u8> = vec![
        0x31, 0x00, 0x09, 0x00, 0x00, 0x00, // ST const 9, ...
        0x00, 0x07, 0x00, 0x00, 0x00, // ... const 7
        0x00, // HLT
    ];
    let mut p = Processor::load(&code);
    assert_eq!(p.const_write_count(), 0);
    let e = p.run(FUEL);
    assert_eq!(e, StepEvent::Halted); // execution continued, no fault
    assert_eq!(p.const_write_count(), 1);
}

#[test]
fn cmp_below_sets_lt_flag_and_jlt_branches() {
    let code: Vec<u8> = vec![
        0x30, 0x03, 0x00, 0x00, 0x02, 0x00, 0x00, 0x00, // CMP reg A, const 2
        0x13, 0x00, 0x20, 0x00, 0x00, 0x00, // JLT const 0x20
        0x01, // NOP (skipped by the branch)
    ];
    let mut p = Processor::load(&code);
    p.set_reg(Register::A, 1);
    let e = p.run(FUEL); // memory at 0x20 is zero, i.e. HLT
    assert_eq!(e, StepEvent::Halted);
    assert_eq!(p.get_reg(Register::R), 0x1); // LT flag
    assert_eq!(p.get_reg(Register::IP), 0x21);
}

#[test]
fn cmp_equal_sets_eq_flag_and_jne_falls_through() {
    let code: Vec<u8> = vec![
        0x30, 0x03, 0x00, 0x00, 0x02, 0x00, 0x00, 0x00, // CMP reg A, const 2
        0x12, 0x00, 0x30, 0x00, 0x00, 0x00, // JNE const 0x30 (not taken)
        0x00, // HLT
    ];
    let mut p = Processor::load(&code);
    p.set_reg(Register::A, 2);
    assert_eq!(p.run(FUEL), StepEvent::Halted);
    assert_eq!(p.get_reg(Register::R), 0x2); // EQ flag
    assert_eq!(p.get_reg(Register::IP), 15); // fell through to the HLT at 14
}

#[test]
fn cmp_above_sets_gt_flag_and_jge_branches() {
    let code: Vec<u8> = vec![
        0x30, 0x03, 0x00, 0x00, 0x02, 0x00, 0x00, 0x00, // CMP reg A, const 2
        0x16, 0x00, 0x40, 0x00, 0x00, 0x00, // JGE const 0x40
        0x01, // NOP (skipped)
    ];
    let mut p = Processor::load(&code);
    p.set_reg(Register::A, 5);
    assert_eq!(p.run(FUEL), StepEvent::Halted);
    assert_eq!(p.get_reg(Register::R), 0x4); // GT flag
    assert_eq!(p.get_reg(Register::IP), 0x41);
}

#[test]
fn comparison_is_unsigned() {
    // 0xFFFF_FFFF compares above 1, not as a negative number.
    let code: Vec<u8> = vec![
        0x30, 0x03, 0x00, 0x00, 0x01, 0x00, 0x00, 0x00, // CMP reg A, const 1
        0x00, // HLT
    ];
    let mut p = Processor::load(&code);
    p.set_reg(Register::A, 0xFFFF_FFFF);
    assert_eq!(p.run(FUEL), StepEvent::Halted);
    assert_eq!(p.get_reg(Register::R), 0x4); // GT flag
}

#[test]
fn jmp_is_unconditional() {
    let code: Vec<u8> = vec![
        0x10, 0x00, 0x10, 0x00, 0x00, 0x00, // JMP const 0x10
        0x01, // NOP (never reached)
    ];
    let mut p = Processor::load(&code);
    assert_eq!(p.run(FUEL), StepEvent::Halted); // HLT at 0x10 (zeroed memory)
    assert_eq!(p.get_reg(Register::IP), 0x11);
}

#[test]
fn inc_and_dec_wrap_silently() {
    let code: Vec<u8> = vec![
        0x23, 0x03, 0x00, // INC reg A
        0x24, 0x03, 0x01, // DEC reg B
        0x00, // HLT
    ];
    let mut p = Processor::load(&code);
    p.set_reg(Register::A, 0xFFFF_FFFF);
    assert_eq!(p.run(FUEL), StepEvent::Halted);
    assert_eq!(p.get_reg(Register::A), 0);
    assert_eq!(p.get_reg(Register::B), 0xFFFF_FFFF);
}

#[test]
fn bitwise_operations() {
    let code: Vec<u8> = vec![
        0x42, 0x03, 0x00, 0x03, 0x01, // AND reg A, reg B
        0x43, 0x03, 0x00, 0x00, 0x01, 0x00, 0x00, 0x00, // OR reg A, const 1
        0x41, 0x03, 0x00, 0x00, 0x0F, 0x00, 0x00, 0x00, // XOR reg A, const 0xF
        0x40, 0x03, 0x01, // NOT reg B
        0x00, // HLT
    ];
    let mut p = Processor::load(&code);
    p.set_reg(Register::A, 0b1100);
    p.set_reg(Register::B, 0b1010);
    assert_eq!(p.run(FUEL), StepEvent::Halted);
    // A: 0b1100 & 0b1010 = 0b1000; | 1 = 0b1001; ^ 0xF = 0b0110
    assert_eq!(p.get_reg(Register::A), 0b0110);
    assert_eq!(p.get_reg(Register::B), !0b1010u32);
}

#[test]
fn mul_and_sub_wrap_silently() {
    let code: Vec<u8> = vec![
        0x46, 0x03, 0x00, 0x00, 0x02, 0x00, 0x00, 0x00, // MUL reg A, const 2
        0x45, 0x03, 0x01, 0x00, 0x05, 0x00, 0x00, 0x00, // SUB reg B, const 5
        0x00, // HLT
    ];
    let mut p = Processor::load(&code);
    p.set_reg(Register::A, 0x8000_0001);
    p.set_reg(Register::B, 3);
    assert_eq!(p.run(FUEL), StepEvent::Halted);
    assert_eq!(p.get_reg(Register::A), 2); // 0x1_0000_0002 mod 2^32
    assert_eq!(p.get_reg(Register::B), 0xFFFF_FFFE);
}

#[test]
fn store_and_load_through_the_origin_register() {
    let code: Vec<u8> = vec![
        0x31, 0x01, 0x10, 0x00, 0x00, 0x00, // ST direct 0x10, ...
        0x00, 0xBE, 0xBA, 0xFE, 0xCA, // ... const 0xCAFEBABE
        0x32, 0x03, 0x02, // LD reg C, ...
        0x01, 0x10, 0x00, 0x00, 0x00, // ... direct 0x10
        0x00, // HLT
    ];
    let mut p = Processor::load(&code);
    p.set_reg(Register::O, 0x100); // both accesses go to effective address 0x110
    assert_eq!(p.run(FUEL), StepEvent::Halted);
    assert_eq!(p.get_reg(Register::C), 0xCAFE_BABE);
}

#[test]
fn register_indirect_addressing() {
    let code: Vec<u8> = vec![
        0x31, 0x02, 0x00, // ST [reg A], ...
        0x00, 0x55, 0x00, 0x00, 0x00, // ... const 0x55
        0x32, 0x03, 0x01, // LD reg B, ...
        0x02, 0x00, // ... [reg A]
        0x00, // HLT
    ];
    let mut p = Processor::load(&code);
    p.set_reg(Register::A, 0x200);
    assert_eq!(p.run(FUEL), StepEvent::Halted);
    assert_eq!(p.get_reg(Register::B), 0x55);
}

#[test]
fn sys_traps_to_the_host_and_resumes_with_its_result() {
    let code: Vec<u8> = vec![0x02, 0x00]; // SYS, HLT
    let mut p = Processor::load(&code);
    p.set_reg(Register::A, 42);
    p.set_reg(Register::B, 7);
    let e = p.run(FUEL);
    assert_eq!(e, StepEvent::Syscall { id: 42, arg: 7 });
    assert_eq!(p.state(), State::Running);
    p.syscall_return(99);
    assert_eq!(p.run(FUEL), StepEvent::Halted);
    assert_eq!(p.get_reg(Register::R), 99);
    assert_eq!(p.get_reg(Register::IP), 2);
}

#[test]
fn run_with_no_fuel_reports_still_running() {
    let code: Vec<u8> = vec![0x01, 0x00]; // NOP, HLT
    let mut p = Processor::load(&code);
    assert_eq!(p.run(0), StepEvent::Ran);
    assert_eq!(p.state(), State::Running);
    assert_eq!(p.run(1), StepEvent::Ran); // the NOP used the whole budget
    assert_eq!(p.get_reg(Register::IP), 1);
    assert_eq!(p.run(1), StepEvent::Halted); // resumed with more fuel
}

#[test]
fn instruction_pointer_wraps_with_the_address_space() {
    let code: Vec<u8> = vec![0x00]; // HLT at address 0
    let mut p = Processor::load(&code);
    // Fetch at 0xFFFF_FFFF reads the byte at masked address 0xFF_FFFF (zero,
    // i.e. HLT) and IP advances with 32-bit wraparound.
    p.set_reg(Register::IP, 0xFFFF_FFFF);
    assert_eq!(p.step(), StepEvent::Halted);
    assert_eq!(p.get_reg(Register::IP), 0);
}

#[test]
fn fresh_processor_halts_on_zeroed_memory() {
    let mut p = Processor::new();
    assert_eq!(p.state(), State::Running);
    assert_eq!(p.const_write_count(), 0);
    assert_eq!(p.step(), StepEvent::Halted); // byte 0x00 is HLT
    assert_eq!(p.get_reg(Register::IP), 1);
}

#[test]
fn argument_constructors_read_and_write() {
    let mut p = Processor::new();
    let con = Argument::Constant(Constant::new(7));
    assert_eq!(con.read(&p), 7);
    con.write(&mut p, 9); // recorded no-op
    assert_eq!(con.read(&p), 7);
    assert_eq!(p.const_write_count(), 1);

    let da = Argument::DirectAddress(DirectAddress::new(0x20));
    da.write(&mut p, 123);
    assert_eq!(da.read(&p), 123);

    p.set_reg(Register::D, 0x80);
    let ra = Argument::RegisterIndirect(RegisterAddress::new(Register::D));
    ra.write(&mut p, 456);
    assert_eq!(ra.read(&p), 456);
    assert_eq!(da.read(&p), 123); // a different cell

    let rg = Argument::Register(Register::C);
    rg.write(&mut p, 789);
    assert_eq!(rg.read(&p), 789);
    assert_eq!(p.get_reg(Register::C), 789);
}
