use eafis_vm::opcode::OpCode;
use eafis_vm::register::Register;

#[test]
fn opcode_decode_is_total_with_27_named_operations() {
    // Every byte decodes to exactly one operation; exactly the assigned
    // codes decode to named operations, every other byte to the sentinel.
    let valid: Vec<(u8, OpCode)> = vec![
        (0x00, OpCode::HLT),
        (0x01, OpCode::NOP),
        (0x02, OpCode::SYS),
        (0x03, OpCode::RET),
        (0x10, OpCode::JMP),
        (0x11, OpCode::JEQ),
        (0x12, OpCode::JNE),
        (0x13, OpCode::JLT),
        (0x14, OpCode::JLE),
        (0x15, OpCode::JGT),
        (0x16, OpCode::JGE),
        (0x20, OpCode::CALL),
        (0x21, OpCode::PUSH),
        (0x22, OpCode::POP),
        (0x23, OpCode::INC),
        (0x24, OpCode::DEC),
        (0x30, OpCode::CMP),
        (0x31, OpCode::ST),
        (0x32, OpCode::LD),
        (0x40, OpCode::NOT),
        (0x41, OpCode::XOR),
        (0x42, OpCode::AND),
        (0x43, OpCode::OR),
        (0x44, OpCode::ADD),
        (0x45, OpCode::SUB),
        (0x46, OpCode::MUL),
        (0x47, OpCode::DIV),
    ];
    let mut named = 0;
    for b in 0..=255u8 {
        let op = OpCode::decode(b);
        match valid.iter().find(|&&(code, _)| code == b) {
            Some(&(_, expected)) => {
                assert_eq!(op, expected);
                named += 1;
            }
            None => assert_eq!(op, OpCode::Unimplemented),
        }
    }
    assert_eq!(named, 27);
    // Injectivity on the named operations: distinct valid bytes give
    // distinct operations.
    for &(b1, op1) in &valid {
        for &(b2, op2) in &valid {
            if b1 != b2 {
                assert_ne!(op1, op2);
            }
        }
    }
}

#[test]
fn opcode_arities() {
    assert_eq!(OpCode::HLT.arity(), 0);
    assert_eq!(OpCode::SYS.arity(), 0);
    assert_eq!(OpCode::RET.arity(), 0);
    assert_eq!(OpCode::JMP.arity(), 1);
    assert_eq!(OpCode::PUSH.arity(), 1);
    assert_eq!(OpCode::NOT.arity(), 1);
    assert_eq!(OpCode::CMP.arity(), 2);
    assert_eq!(OpCode::ADD.arity(), 2);
    assert_eq!(OpCode::DIV.arity(), 2);
    assert_eq!(OpCode::Unimplemented.arity(), 0);
}

#[test]
fn register_decode_ignores_upper_bits() {
    for b in 0..=255u8 {
        assert_eq!(Register::decode(b), Register::decode(b | 0xF8));
        assert_eq!(Register::decode(b), Register::decode(b & 0x07));
    }
}

#[test]
fn register_decode_low_values() {
    assert_eq!(Register::decode(0x00), Register::A);
    assert_eq!(Register::decode(0x01), Register::B);
    assert_eq!(Register::decode(0x02), Register::C);
    assert_eq!(Register::decode(0x03), Register::D);
    assert_eq!(Register::decode(0x04), Register::R);
    assert_eq!(Register::decode(0x05), Register::O);
    assert_eq!(Register::decode(0x06), Register::SP);
    assert_eq!(Register::decode(0x07), Register::IP);
    assert_eq!(Register::decode(0xFA), Register::C);
}
