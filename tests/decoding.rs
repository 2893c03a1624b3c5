use lib8086::{
    get_prefix, CondJumpOp, DecodeError, Decoder, Displacement, EffectiveAddr, Instruction, MovOp,
    NumOp, NumOpType, Operand, PopOp, PushOp, Register, SegmentRegister, Value,
};

#[test]
fn instr_single_mov_reg_reg() {
    let instruction = Instruction::try_parse_next(&[0x89, 0xd9])
        .expect("Guaranteed to succeed")
        .0;
    assert_eq!(&instruction.to_string(), "mov cx, bx");
}

#[test]
fn instruct_single_mov_reg_reg() {
    let instruction = Instruction::try_parse_next(&[0x89, 0xd9])
        .expect("Guaranteed to succeed")
        .0;
    assert_eq!(&instruction.to_string(), "mov cx, bx");
}

const MOV_REG_REG: [u8; 22] = [
    0x89, 0xd9, 0x88, 0xe5, 0x89, 0xda, 0x89, 0xde, 0x89, 0xfb, 0x88, 0xc8, 0x88, 0xed, 0x89,
    0xc3, 0x89, 0xf3, 0x89, 0xfc, 0x89, 0xc5,
];

const MOV_REG_REG_ASM: [&str; 11] = [
    "mov cx, bx",
    "mov ch, ah",
    "mov dx, bx",
    "mov si, bx",
    "mov bx, di",
    "mov al, cl",
    "mov ch, ch",
    "mov bx, ax",
    "mov bx, si",
    "mov sp, di",
    "mov bp, ax",
];

#[test]
fn instr_multi_mov_reg_reg() {
    let instructions = Instruction::try_parse(&MOV_REG_REG).unwrap();
    assert_eq!(instructions.len(), MOV_REG_REG_ASM.len());
    for (instr, exp) in instructions.into_iter().zip(MOV_REG_REG_ASM.iter()) {
        assert_eq!(&instr.to_string(), exp);
    }
}

#[test]
fn instruct_multi_mov_reg_reg() {
    let instructions = Instruction::try_parse(&MOV_REG_REG).unwrap();
    assert_eq!(instructions.len(), MOV_REG_REG_ASM.len());
    for (instr, exp) in instructions.into_iter().zip(MOV_REG_REG_ASM.iter()) {
        assert_eq!(&instr.to_string(), exp);
    }
}

#[test]
fn instruct_multi_mov_all() {
    let bin = &[
        0x89, 0xde, 0x88, 0xc6, 0xb1, 0x0c, 0xb5, 0xf4, 0xb9, 0x0c, 0x00, 0xb9, 0xf4, 0xff, 0xba,
        0x6c, 0x0f, 0xba, 0x94, 0xf0, 0x8a, 0x00, 0x8b, 0x1b, 0x8b, 0x56, 0x00, 0x8a, 0x60, 0x04,
        0x8a, 0x80, 0x87, 0x13, 0x89, 0x09, 0x88, 0x0a, 0x88, 0x6e, 0x00,
    ];

    let expected = &[
        "mov si, bx",
        "mov dh, al",
        "mov cl, 12",
        "mov ch, 244",
        "mov cx, 12",
        "mov cx, 65524",
        "mov dx, 3948",
        "mov dx, 61588",
        "mov al, [bx + si]",
        "mov bx, [bp + di]",
        "mov dx, [bp + 0]",
        "mov ah, [bx + si + 4]",
        "mov al, [bx + si + 4999]",
        "mov [bx + di], cx",
        "mov [bp + si], cl",
        "mov [bp + 0], ch",
    ];

    let instructions = Instruction::try_parse(bin).unwrap();
    assert_eq!(instructions.len(), expected.len());
    for (instr, exp) in instructions.into_iter().zip(expected) {
        assert_eq!(&instr.to_string(), exp);
    }
}

#[test]
fn parse_next_returns_the_rest() {
    let bytes = [0xb1, 0x0c, 0xf4];
    let (instr, rest) = Instruction::try_parse_next(&bytes).unwrap();
    assert_eq!(
        instr,
        Instruction::Mov(MovOp {
            source: Operand::Immediate(Value::Byte(12)),
            destination: Operand::Register(Register::CL),
        })
    );
    assert_eq!(rest, &[0xf4]);
}

#[test]
fn decode_errors() {
    assert_eq!(Decoder::try_decode_next(&[]).unwrap_err(), DecodeError::Incomplete);
    assert_eq!(Decoder::try_decode_next(&[0x89]).unwrap_err(), DecodeError::Incomplete);
    assert_eq!(Decoder::try_decode_next(&[0xb8, 0x01]).unwrap_err(), DecodeError::Incomplete);
    assert_eq!(Decoder::try_decode_next(&[0x0c]).unwrap_err(), DecodeError::OpCode(0x0c));
    assert_eq!(Decoder::try_decode_next(&[0x90]).unwrap_err(), DecodeError::OpCode(0x90));
    assert_eq!(Decoder::try_decode_next(&[0x83, 0xcb, 0x01]).unwrap_err(), DecodeError::NumType);
    assert_eq!(Decoder::try_decode_next(&[0x8e, 0xe0]).unwrap_err(), DecodeError::SegmentRegister);
    assert_eq!(Decoder::try_decode_next(&[0xc7, 0x08, 0, 0]).unwrap_err(), DecodeError::OpCode(0xc7));
}

#[test]
fn decode_arithmetic_forms() {
    let (i, n) = Decoder::try_decode_next(&[0x83, 0xc3, 0xf6]).unwrap();
    assert_eq!(n, 3);
    assert_eq!(
        i,
        Instruction::Num(NumOp::Add {
            source: Operand::Immediate(Value::Word(-10)),
            destination: Operand::Register(Register::BX),
        })
    );
    assert_eq!(i.to_string(), "add bx, -10");

    let (i, n) = Decoder::try_decode_next(&[0x81, 0x07, 0xe8, 0x03]).unwrap();
    assert_eq!(n, 4);
    assert_eq!(i.to_string(), "add word [bx], 1000");

    let (i, n) = Decoder::try_decode_next(&[0x83, 0x07, 0x80]).unwrap();
    assert_eq!(n, 3);
    assert_eq!(i.to_string(), "add word [bx], -128");

    let (i, n) = Decoder::try_decode_next(&[0x81, 0xed, 0xea, 0x07]).unwrap();
    assert_eq!(n, 4);
    assert_eq!(i.to_string(), "sub bp, 2026");

    let (i, n) = Decoder::try_decode_next(&[0x80, 0x3f, 0x22]).unwrap();
    assert_eq!(n, 3);
    assert_eq!(i.to_string(), "cmp byte [bx], 34");

    let (i, n) = Decoder::try_decode_next(&[0x15, 0xe8, 0x03]).unwrap();
    assert_eq!(n, 3);
    assert_eq!(i.to_string(), "adc ax, 1000");

    let (i, n) = Decoder::try_decode_next(&[0x1c, 0x05]).unwrap();
    assert_eq!(n, 2);
    assert_eq!(i.to_string(), "sbb al, 5");

    let (i, _) = Decoder::try_decode_next(&[0x39, 0xe5]).unwrap();
    assert_eq!(i.to_string(), "cmp bp, sp");

    let (i, _) = Decoder::try_decode_next(&[0x03, 0x5e, 0xfc]).unwrap();
    assert_eq!(i.to_string(), "add bx, [bp - 4]");
}

#[test]
fn num_op_types() {
    assert_eq!(NumOpType::try_parse_byte(0b00_101_000).unwrap(), NumOpType::Sub);
    assert_eq!(NumOpType::try_parse_byte(0b00_111_000).unwrap(), NumOpType::Cmp);
    assert_eq!(NumOpType::try_parse_byte(0b00_001_000).unwrap_err(), DecodeError::NumType);
    let (op, n) = NumOp::try_decode_im_acc(&[0x2d, 0x10, 0x00], NumOpType::Sub).unwrap();
    assert_eq!(n, 3);
    assert_eq!(
        op,
        NumOp::Sub { source: Operand::Immediate(Value::Word(16)), destination: Operand::Register(Register::AX) }
    );
}

#[test]
fn decode_moves_with_segments_and_accumulator() {
    let (i, n) = Decoder::try_decode_next(&[0x8e, 0xd0]).unwrap();
    assert_eq!(n, 2);
    assert_eq!(i.to_string(), "mov ss, ax");
    let (i, _) = Decoder::try_decode_next(&[0x8c, 0xdb]).unwrap();
    assert_eq!(i.to_string(), "mov bx, ds");
    let (i, n) = Decoder::try_decode_next(&[0xa1, 0xfb, 0x09]).unwrap();
    assert_eq!(n, 3);
    assert_eq!(i.to_string(), "mov ax, [2555]");
    let (i, _) = Decoder::try_decode_next(&[0xa2, 0x10, 0x00]).unwrap();
    assert_eq!(i.to_string(), "mov [16], al");
    let (i, n) = Decoder::try_decode_next(&[0xc7, 0x85, 0x85, 0x03, 0x5b, 0x01]).unwrap();
    assert_eq!(n, 6);
    assert_eq!(i.to_string(), "mov [di + 901], word 347");
    let (i, n) = Decoder::try_decode_next(&[0xc6, 0x03, 0x07]).unwrap();
    assert_eq!(n, 3);
    assert_eq!(i.to_string(), "mov [bp + di], byte 7");
    let (op, n) = MovOp::try_decode_mem_acc(&[0xa0, 0x10, 0x00]).unwrap();
    assert_eq!(n, 3);
    assert_eq!(op.destination, Operand::Register(Register::AL));
    assert_eq!(op.source, Operand::Memory(EffectiveAddr::Direct(16)));
}

#[test]
fn decode_stack_and_jumps() {
    let (i, n) = Decoder::try_decode_next(&[0x51]).unwrap();
    assert_eq!((i, n), (Instruction::Push(PushOp { operand: Operand::Register(Register::CX) }), 1));
    assert_eq!(i.to_string(), "push cx");
    let (i, n) = Decoder::try_decode_next(&[0x5f]).unwrap();
    assert_eq!((i, n), (Instruction::Pop(PopOp { operand: Operand::Register(Register::DI) }), 1));
    let (i, n) = Decoder::try_decode_next(&[0x1e]).unwrap();
    assert_eq!(
        (i, n),
        (Instruction::Push(PushOp { operand: Operand::SegmentRegister(SegmentRegister::DS) }), 1)
    );
    assert_eq!(i.to_string(), "push ds");
    let (i, _) = Decoder::try_decode_next(&[0x07]).unwrap();
    assert_eq!(i.to_string(), "pop es");
    let (i, n) = Decoder::try_decode_next(&[0xff, 0x32]).unwrap();
    assert_eq!(n, 2);
    assert_eq!(i.to_string(), "push word [bp + si]");
    let (i, n) = Decoder::try_decode_next(&[0x8f, 0x46, 0x02]).unwrap();
    assert_eq!(n, 3);
    assert_eq!(i.to_string(), "pop word [bp + 2]");
    let (op, n) = PushOp::try_decode_rm(&[0xff, 0x36, 0x10, 0x00]).unwrap();
    assert_eq!((op.operand, n), (Operand::Memory(EffectiveAddr::Direct(16)), 4));
    let (op, _) = PopOp::try_decode_seg_reg(&[0x17]).unwrap();
    assert_eq!(op.operand, Operand::SegmentRegister(SegmentRegister::SS));

    let (i, n) = Decoder::try_decode_next(&[0x75, 0xf8]).unwrap();
    assert_eq!((i, n), (Instruction::CondJump(CondJumpOp::NotEqual(-8)), 2));
    assert_eq!(i.to_string(), "jnz $-6+0");
    let (i, _) = Decoder::try_decode_next(&[0xe2, 0x05]).unwrap();
    assert_eq!(i.to_string(), "loop $+7+0");
    let (i, _) = Decoder::try_decode_next(&[0xe3, 0xfe]).unwrap();
    assert_eq!(i.to_string(), "jcxz $+0");
    let (i, n) = Decoder::try_decode_next(&[0xf4]).unwrap();
    assert_eq!((i, n), (Instruction::Halt, 1));
}

#[test]
fn decoder_builds_program_with_offsets() {
    let bytes = vec![0xb9, 0x03, 0x00, 0x89, 0xd9, 0x75, 0xfb];
    let queue = Decoder::new(bytes).decode().unwrap();
    assert_eq!(queue.len(), 4);
    assert_eq!(queue.get(0).map(|(i, s)| (*i, *s)), Some((queue.entry(0).0, 3)));
    assert_eq!(queue.get(3).map(|(_, s)| *s), Some(2));
    assert_eq!(queue.get(5).map(|(_, s)| *s), Some(2));
    assert_eq!(queue.get(7).map(|(i, s)| (*i, *s)), Some((Instruction::Halt, 0)));
    assert!(queue.get(1).is_none());
    assert_eq!(queue.to_string(), "mov cx, 3\nmov cx, bx\njnz $-3+0\n");
}

#[test]
fn decoder_reports_first_error() {
    let err = Decoder::new(vec![0x89, 0xd9, 0x0c]).decode().unwrap_err();
    assert_eq!(err, DecodeError::OpCode(0x0c));
    let err = Decoder::new(vec![0x89]).decode().unwrap_err();
    assert_eq!(err, DecodeError::Incomplete);
}

#[test]
fn decoded_sizes_add_up_to_the_input() {
    let bytes = vec![
        0xc7, 0x06, 0xe8, 0x03, 0x01, 0x00, 0xbb, 0xe8, 0x03, 0xc7, 0x47, 0x04, 0x0a, 0x00, 0x8b,
        0x1e, 0xe8, 0x03,
    ];
    let len = bytes.len();
    let queue = Decoder::new(bytes).decode().unwrap();
    let total: usize = (0..queue.len()).map(|i| queue.entry(i).1).sum();
    assert_eq!(total, len);
    assert_eq!(queue.entry(queue.len() - 1), (Instruction::Halt, 0));
}

#[test]
fn operand_constructors_and_prefix() {
    assert_eq!(Operand::register(0b011, true), Operand::Register(Register::BX));
    assert_eq!(
        Operand::memory(0b110, Displacement::Byte(2)),
        Operand::Memory(EffectiveAddr::RegDisp { base: Register::BP, disp: Displacement::Byte(2) })
    );
    assert_eq!(Operand::immediate(Value::Byte(3)), Operand::Immediate(Value::Byte(3)));
    let mem = Operand::Memory(EffectiveAddr::Direct(0));
    assert_eq!(get_prefix(&Operand::Immediate(Value::Byte(3)), &mem), "byte ");
    assert_eq!(get_prefix(&Operand::Immediate(Value::Word(100)), &mem), "word ");
    assert_eq!(get_prefix(&Operand::Immediate(Value::Word(1000)), &mem), "word ");
    assert_eq!(get_prefix(&Operand::Immediate(Value::Word(-127)), &mem), "word ");
    assert_eq!(get_prefix(&Operand::Register(Register::AX), &mem), "");
}

#[test]
fn single_byte_decoders_reject_empty_input() {
    assert_eq!(MovOp::try_parse_im_reg(&[]).unwrap_err(), DecodeError::Incomplete);
    assert_eq!(NumOp::try_decode_im_acc(&[], NumOpType::Add).unwrap_err(), DecodeError::Incomplete);
    assert_eq!(PushOp::try_decode_reg(&[]).unwrap_err(), DecodeError::Incomplete);
    assert_eq!(PushOp::try_decode_seg_reg(&[]).unwrap_err(), DecodeError::Incomplete);
    assert_eq!(PopOp::try_decode_reg(&[]).unwrap_err(), DecodeError::Incomplete);
    assert_eq!(PopOp::try_decode_seg_reg(&[]).unwrap_err(), DecodeError::Incomplete);
}

#[test]
fn word_immediates_to_memory_carry_their_size() {
    let (i, _) = Decoder::try_decode_next(&[0x83, 0x3f, 0x05]).unwrap();
    assert_eq!(i.to_string(), "cmp word [bx], 5");
    let (i, _) = Decoder::try_decode_next(&[0x81, 0x2e, 0x10, 0x00, 0x10, 0x27]).unwrap();
    assert_eq!(i.to_string(), "sub word [16], 10000");
}
