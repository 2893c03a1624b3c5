use lib8086::{GeneralRegisters, Register, SegmentRegister, SegmentRegisters, Value};

#[test]
fn register_test_registers() {
    assert_eq!(Register::from(0b000, false), Register::AL);
    assert_eq!(Register::from(0b000, true), Register::AX);
    assert_eq!(Register::from(0b001, false), Register::CL);
    assert_eq!(Register::from(0b001, true), Register::CX);
    assert_eq!(Register::from(0b010, false), Register::DL);
    assert_eq!(Register::from(0b010, true), Register::DX);
    assert_eq!(Register::from(0b011, false), Register::BL);
    assert_eq!(Register::from(0b011, true), Register::BX);
    assert_eq!(Register::from(0b100, false), Register::AH);
    assert_eq!(Register::from(0b100, true), Register::SP);
    assert_eq!(Register::from(0b101, false), Register::CH);
    assert_eq!(Register::from(0b101, true), Register::BP);
    assert_eq!(Register::from(0b110, false), Register::DH);
    assert_eq!(Register::from(0b110, true), Register::SI);
    assert_eq!(Register::from(0b111, false), Register::BH);
    assert_eq!(Register::from(0b111, true), Register::DI);
}

fn check_general_registers() {
    let mut gen = GeneralRegisters::default();
    assert_eq!(gen.get(&Register::AX), Value::Word(0));

    gen.set(&Register::AL, Value::Byte(8));
    assert_eq!(gen.get(&Register::AX), Value::Word(8));

    gen.set(&Register::AH, Value::Byte(1));
    assert_eq!(gen.get(&Register::AL), Value::Byte(8));
    assert_eq!(gen.get(&Register::AH), Value::Byte(1));
    assert_eq!(gen.get(&Register::AX), Value::Word(264));

    gen.set(&Register::AX, Value::Word(1025));
    assert_eq!(gen.get(&Register::AL), Value::Byte(1));
    assert_eq!(gen.get(&Register::AH), Value::Byte(4));
    assert_eq!(gen.get(&Register::AX), Value::Word(1025));
}

#[test]
fn gen_test_registers_success() {
    check_general_registers();
}

#[test]
fn registers_test_registers_success() {
    check_general_registers();
}

fn check_segment_registers() {
    let mut segs = SegmentRegisters::default();
    assert_eq!(segs.get(&SegmentRegister::ES), Value::Word(0));

    segs.set(&SegmentRegister::ES, Value::Word(10));
    assert_eq!(segs.get(&SegmentRegister::ES), Value::Word(10));
}

#[test]
fn seg_test_segment_registers_success() {
    check_segment_registers();
}

#[test]
fn registers_test_segment_registers_success() {
    check_segment_registers();
}

#[test]
fn byte_halves_keep_each_other() {
    let mut gen = GeneralRegisters::default();
    gen.set(&Register::DX, Value::Word(0x1234));
    gen.set(&Register::DL, Value::Byte(0x7F));
    assert_eq!(gen.get(&Register::DH), Value::Byte(0x12));
    assert_eq!(gen.get(&Register::DX), Value::Word(0x127F));
    gen.set(&Register::BH, Value::Byte(-1));
    assert_eq!(gen.get(&Register::BX), Value::Word(0xFF00u16 as i16));
    assert_eq!(gen.get(&Register::DX), Value::Word(0x127F));
}

#[test]
fn segment_codes() {
    assert_eq!(SegmentRegister::try_from_code(0b10).unwrap(), SegmentRegister::SS);
    assert!(SegmentRegister::try_from_code(0b100).is_err());
    let mut segs = SegmentRegisters::default();
    segs.set(&SegmentRegister::CS, Value::Word(0x0100));
    assert_eq!(segs.cs(), 0x0100);
}
