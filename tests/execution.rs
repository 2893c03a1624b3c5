use lib8086::{
    CondJumpOp, Cpu, DecodeError, ExecutionError, Register, SegmentRegister, Value,
};

fn execute_program(program: &[u8]) -> Cpu {
    let mut cpu = Cpu::new();
    cpu.load_instructions(program);
    cpu.execute().unwrap();
    cpu
}

fn reg(cpu: &Cpu, r: Register) -> u16 {
    cpu.gen_regs.get(&r).as_u16()
}

fn seg(cpu: &Cpu, s: SegmentRegister) -> u16 {
    cpu.seg_regs.get(&s).as_u16()
}

#[test]
fn test_immediate_movs() {
    let cpu = execute_program(&[
        0xb8, 0x01, 0x00, 0xbb, 0x02, 0x00, 0xb9, 0x03, 0x00, 0xba, 0x04, 0x00, 0xbc, 0x05, 0x00,
        0xbd, 0x06, 0x00, 0xbe, 0x07, 0x00, 0xbf, 0x08, 0x00,
    ]);

    assert_eq!(reg(&cpu, Register::AX), 1);
    assert_eq!(reg(&cpu, Register::BX), 2);
    assert_eq!(reg(&cpu, Register::CX), 3);
    assert_eq!(reg(&cpu, Register::DX), 4);
    assert_eq!(reg(&cpu, Register::SP), 5);
    assert_eq!(reg(&cpu, Register::BP), 6);
    assert_eq!(reg(&cpu, Register::SI), 7);
    assert_eq!(reg(&cpu, Register::DI), 8);

    assert!(!cpu.flags.zero);
    assert!(!cpu.flags.sign);
    assert!(cpu.flags.parity);
}

#[test]
fn test_register_movs() {
    // mov ax,0x4411; mov bx,0x3344; mov cx,0x6677; mov dx,0x7788;
    // mov ss,ax; mov ds,bx; mov es,cx; mov sp,ax; mov bp,bx; mov si,cx; mov di,dx
    let cpu = execute_program(&[
        0xb8, 0x11, 0x44, 0xbb, 0x44, 0x33, 0xb9, 0x77, 0x66, 0xba, 0x88, 0x77, 0x8e, 0xd0, 0x8e,
        0xdb, 0x8e, 0xc1, 0x89, 0xc4, 0x89, 0xdd, 0x89, 0xce, 0x89, 0xd7,
    ]);

    assert_eq!(reg(&cpu, Register::AX), 0x4411);
    assert_eq!(reg(&cpu, Register::BX), 0x3344);
    assert_eq!(reg(&cpu, Register::CX), 0x6677);
    assert_eq!(reg(&cpu, Register::DX), 0x7788);
    assert_eq!(reg(&cpu, Register::SP), 0x4411);
    assert_eq!(reg(&cpu, Register::BP), 0x3344);
    assert_eq!(reg(&cpu, Register::SI), 0x6677);
    assert_eq!(reg(&cpu, Register::DI), 0x7788);

    assert_eq!(seg(&cpu, SegmentRegister::ES), 0x6677);
    assert_eq!(seg(&cpu, SegmentRegister::SS), 0x4411);
    assert_eq!(seg(&cpu, SegmentRegister::DS), 0x3344);
}

#[test]
fn test_arithmetic() {
    // mov bx,-4093; mov cx,3841; sub bx,cx; mov sp,998; mov bp,999;
    // cmp bp,sp; add bp,1027; sub bp,2026
    let cpu = execute_program(&[
        0xbb, 0x03, 0xf0, 0xb9, 0x01, 0x0f, 0x29, 0xcb, 0xbc, 0xe6, 0x03, 0xbd, 0xe7, 0x03, 0x39,
        0xe5, 0x81, 0xc5, 0x03, 0x04, 0x81, 0xed, 0xea, 0x07,
    ]);

    assert_eq!(reg(&cpu, Register::BX), 0xe102);
    assert_eq!(reg(&cpu, Register::CX), 0x0f01);
    assert_eq!(reg(&cpu, Register::SP), 0x03e6);

    assert!(cpu.flags.parity);
    assert!(cpu.flags.zero);
}

#[test]
fn test_flags() {
    // add bx,30000; add bx,10000; sub bx,5000; sub bx,5000; mov bx,1; mov cx,100;
    // add bx,cx; mov dx,10; sub cx,dx; add bx,40000; add cx,-90; mov sp,99;
    // mov bp,98; cmp bp,sp
    let cpu = execute_program(&[
        0x81, 0xc3, 0x30, 0x75, 0x81, 0xc3, 0x10, 0x27, 0x81, 0xeb, 0x88, 0x13, 0x81, 0xeb, 0x88,
        0x13, 0xbb, 0x01, 0x00, 0xb9, 0x64, 0x00, 0x01, 0xcb, 0xba, 0x0a, 0x00, 0x29, 0xd1, 0x81,
        0xc3, 0x40, 0x9c, 0x83, 0xc1, 0xa6, 0xbc, 0x63, 0x00, 0xbd, 0x62, 0x00, 0x39, 0xe5,
    ]);

    assert_eq!(reg(&cpu, Register::BX), 0x9ca5);
    assert_eq!(reg(&cpu, Register::DX), 0x000a);
    assert_eq!(reg(&cpu, Register::SP), 0x0063);
    assert_eq!(reg(&cpu, Register::BP), 0x0062);

    assert!(cpu.flags.carry);
    assert!(cpu.flags.parity);
    assert!(cpu.flags.aux_carry);
    assert!(cpu.flags.sign);
}

#[test]
fn test_ip_reg() {
    // mov cx,200; mov bx,cx; add cx,1000; mov bx,2000; sub cx,bx
    let cpu = execute_program(&[
        0xb9, 0xc8, 0x00, 0x89, 0xcb, 0x81, 0xc1, 0xe8, 0x03, 0xbb, 0xd0, 0x07, 0x29, 0xd9,
    ]);

    assert_eq!(reg(&cpu, Register::BX), 0x07d0);
    assert_eq!(reg(&cpu, Register::CX), 0xfce0);
    assert_eq!(cpu.ip, 0x000e);
}

#[test]
fn test_cond_jumps_1() {
    // mov cx,3; mov bx,1000; loop_start: add bx,10; sub cx,1; jnz loop_start
    let cpu = execute_program(&[
        0xb9, 0x03, 0x00, 0xbb, 0xe8, 0x03, 0x83, 0xc3, 0x0a, 0x83, 0xe9, 0x01, 0x75, 0xf8,
    ]);

    assert_eq!(reg(&cpu, Register::BX), 0x0406);
    assert_eq!(cpu.ip, 0x000e);

    assert!(cpu.flags.zero);
    assert!(cpu.flags.parity);
}

#[test]
fn test_cond_jumps_2() {
    // mov ax,10; mov bx,10; mov cx,10;
    // l0: cmp bx,cx; je l1; add ax,1; jp l2;
    // l1: sub bx,5; jb l3;
    // l2: sub cx,2;
    // l3: loopnz l0
    let cpu = execute_program(&[
        0xb8, 0x0a, 0x00, 0xbb, 0x0a, 0x00, 0xb9, 0x0a, 0x00, 0x39, 0xcb, 0x74, 0x05, 0x83, 0xc0,
        0x01, 0x7a, 0x05, 0x83, 0xeb, 0x05, 0x72, 0x03, 0x83, 0xe9, 0x02, 0xe0, 0xed,
    ]);

    assert_eq!(reg(&cpu, Register::AX), 0x000d);
    assert_eq!(reg(&cpu, Register::BX), 0xfffb);
    assert_eq!(cpu.ip, 0x001c);

    assert!(cpu.flags.carry);
    assert!(cpu.flags.aux_carry);
    assert!(cpu.flags.sign);
}

#[test]
fn test_memory_movs() {
    // mov word [1000],1; mov word [1002],2; mov word [1004],3; mov word [1006],4;
    // mov bx,1000; mov word [bx+4],10;
    // mov bx,[1000]; mov cx,[1002]; mov dx,[1004]; mov bp,[1006]
    let cpu = execute_program(&[
        0xc7, 0x06, 0xe8, 0x03, 0x01, 0x00, 0xc7, 0x06, 0xea, 0x03, 0x02, 0x00, 0xc7, 0x06, 0xec,
        0x03, 0x03, 0x00, 0xc7, 0x06, 0xee, 0x03, 0x04, 0x00, 0xbb, 0xe8, 0x03, 0xc7, 0x47, 0x04,
        0x0a, 0x00, 0x8b, 0x1e, 0xe8, 0x03, 0x8b, 0x0e, 0xea, 0x03, 0x8b, 0x16, 0xec, 0x03, 0x8b,
        0x2e, 0xee, 0x03,
    ]);

    assert_eq!(reg(&cpu, Register::BX), 0x0001);
    assert_eq!(reg(&cpu, Register::CX), 0x0002);
    assert_eq!(reg(&cpu, Register::DX), 0x000a);
    assert_eq!(reg(&cpu, Register::BP), 0x0004);
    assert_eq!(cpu.ip, 0x0030);
}

#[test]
fn test_memory_num_loop() {
    // mov dx,6; mov bp,1000; mov si,0;
    // init: mov [bp+si],si; add si,2; cmp si,dx; jnz init;
    // mov bx,0; mov si,0;
    // sum: mov cx,[bp+si]; add bx,cx; add si,2; cmp si,dx; jnz sum
    let cpu = execute_program(&[
        0xba, 0x06, 0x00, 0xbd, 0xe8, 0x03, 0xbe, 0x00, 0x00, 0x89, 0x32, 0x83, 0xc6, 0x02, 0x39,
        0xd6, 0x75, 0xf7, 0xbb, 0x00, 0x00, 0xbe, 0x00, 0x00, 0x8b, 0x0a, 0x01, 0xcb, 0x83, 0xc6,
        0x02, 0x39, 0xd6, 0x75, 0xf5,
    ]);

    assert_eq!(reg(&cpu, Register::BX), 0x0006);
    assert_eq!(reg(&cpu, Register::CX), 0x0004);
    assert_eq!(reg(&cpu, Register::DX), 0x0006);
    assert_eq!(reg(&cpu, Register::BP), 0x03e8);
    assert_eq!(reg(&cpu, Register::SI), 0x0006);
    assert_eq!(cpu.ip, 0x0023);

    assert!(cpu.flags.parity);
    assert!(cpu.flags.zero);
}

#[test]
fn test_add_loop() {
    // mov dx,6; mov bp,1000; mov si,0;
    // init: mov [bp+si],si; add si,2; cmp si,dx; jnz init;
    // mov bx,0; mov si,dx; sub bp,2;
    // sum: add bx,[bp+si]; sub si,2; jnz sum
    let cpu = execute_program(&[
        0xba, 0x06, 0x00, 0xbd, 0xe8, 0x03, 0xbe, 0x00, 0x00, 0x89, 0x32, 0x83, 0xc6, 0x02, 0x39,
        0xd6, 0x75, 0xf7, 0xbb, 0x00, 0x00, 0x89, 0xd6, 0x83, 0xed, 0x02, 0x03, 0x1a, 0x83, 0xee,
        0x02, 0x75, 0xf9,
    ]);

    assert_eq!(reg(&cpu, Register::BX), 0x0006);
    assert_eq!(reg(&cpu, Register::DX), 0x0006);
    assert_eq!(reg(&cpu, Register::BP), 0x03e6);
    assert_eq!(cpu.ip, 0x0021);
}

#[test]
fn test_draw_rectangle() {
    // mov bp,256; mov dx,0;
    // y: mov cx,0;
    // x: mov [bp+0],cx; mov [bp+2],dx; mov byte [bp+3],255; add bp,4;
    //    add cx,1; cmp cx,64; jnz x;
    // add dx,1; cmp dx,64; jnz y
    let cpu = execute_program(&[
        0xbd, 0x00, 0x01, 0xba, 0x00, 0x00, 0xb9, 0x00, 0x00, 0x89, 0x4e, 0x00, 0x89, 0x56, 0x02,
        0xc6, 0x46, 0x03, 0xff, 0x83, 0xc5, 0x04, 0x83, 0xc1, 0x01, 0x83, 0xf9, 0x40, 0x75, 0xeb,
        0x83, 0xc2, 0x01, 0x83, 0xfa, 0x40, 0x75, 0xe0,
    ]);

    assert_eq!(reg(&cpu, Register::CX), 0x0040);
    assert_eq!(reg(&cpu, Register::DX), 0x0040);
    assert_eq!(reg(&cpu, Register::BP), 0x4100);
    assert_eq!(cpu.ip, 0x0026);
    assert_eq!(cpu.mem[256], 0);
    assert_eq!(cpu.mem[256 + 3], 255);
    assert_eq!(cpu.mem[256 + 4], 1);
}

#[test]
fn load_writes_halt_after_program() {
    let mut cpu = Cpu::new();
    cpu.load_instructions(&[0xb8, 0x01, 0x00]);
    assert_eq!(&cpu.mem[0..4], &[0xb8, 0x01, 0x00, 0xf4]);
    assert_eq!(cpu.ip_abs(), 0);
    assert_eq!(cpu.step(), Ok(false));
    assert_eq!(cpu.ip, 3);
    assert_eq!(cpu.step(), Ok(true));
    assert_eq!(cpu.ip, 3);
}

#[test]
fn push_and_pop_round_trip() {
    // mov sp,0x100; mov ax,0x1234; push ax; pop bx; push es; pop ds
    let cpu = execute_program(&[
        0xbc, 0x00, 0x01, 0xb8, 0x34, 0x12, 0x50, 0x5b, 0x06, 0x1f,
    ]);
    assert_eq!(reg(&cpu, Register::BX), 0x1234);
    assert_eq!(reg(&cpu, Register::SP), 0x0100);
    assert_eq!(cpu.mem[0xfe], 0x00);
    assert_eq!(cpu.mem[0xff], 0x00);
    assert_eq!(seg(&cpu, SegmentRegister::DS), 0);

    // mov sp,0x100; mov ax,0x1234; push ax
    let cpu = execute_program(&[0xbc, 0x00, 0x01, 0xb8, 0x34, 0x12, 0x50]);
    assert_eq!(reg(&cpu, Register::SP), 0x00fe);
    assert_eq!(cpu.mem[0xfe], 0x34);
    assert_eq!(cpu.mem[0xff], 0x12);
}

#[test]
fn adc_and_sbb_use_the_carry() {
    // mov ax,0xffff; add ax,1 (carry); mov bx,5; adc bx,1; mov cx,5; sub ax,1 (borrow); sbb cx,1
    let cpu = execute_program(&[
        0xb8, 0xff, 0xff, 0x83, 0xc0, 0x01, 0xbb, 0x05, 0x00, 0x83, 0xd3, 0x01, 0xb9, 0x05, 0x00,
        0x83, 0xe8, 0x01, 0x83, 0xd9, 0x01,
    ]);
    assert_eq!(reg(&cpu, Register::BX), 7);
    assert_eq!(reg(&cpu, Register::CX), 3);
}

#[test]
fn conditional_jump_table() {
    // Each case: set flags with `cmp ax, imm` after `mov ax, a`, then a jump
    // over `mov bx, 1`; BX tells whether the jump was taken.
    let cases: [(u8, u16, i8, bool); 12] = [
        (0x74, 5, 5, true),    // je
        (0x75, 5, 5, false),   // jnz
        (0x7c, 3, 5, true),    // jl
        (0x7d, 3, 5, false),   // jnl
        (0x7e, 5, 5, true),    // jle
        (0x7f, 5, 5, false),   // jg
        (0x7f, 6, 5, true),    // jg
        (0x78, 3, 5, true),    // js
        (0x79, 3, 5, false),   // jns
        (0x7a, 5, 5, true),    // jp
        (0x7b, 5, 5, false),   // jnp
        (0x7c, 6, 5, false),   // jl
    ];
    for (opcode, a, b, taken) in cases {
        let program = [
            0xb8, a as u8, (a >> 8) as u8, 0x83, 0xf8, b as u8, opcode, 0x03, 0xbb, 0x01, 0x00,
        ];
        let cpu = execute_program(&program);
        assert_eq!(reg(&cpu, Register::BX) == 0, taken, "opcode {:#x}", opcode);
    }
}

#[test]
fn carry_based_jumps() {
    // mov ax,0; sub ax,1 sets carry; jb over mov bx,1
    let cpu = execute_program(&[0xb8, 0x00, 0x00, 0x83, 0xe8, 0x01, 0x72, 0x03, 0xbb, 0x01, 0x00]);
    assert_eq!(reg(&cpu, Register::BX), 0);
    // same with jnb (not taken)
    let cpu = execute_program(&[0xb8, 0x00, 0x00, 0x83, 0xe8, 0x01, 0x73, 0x03, 0xbb, 0x01, 0x00]);
    assert_eq!(reg(&cpu, Register::BX), 1);
    // ja after a borrow-free, nonzero subtraction is taken
    let cpu = execute_program(&[0xb8, 0x05, 0x00, 0x83, 0xe8, 0x01, 0x77, 0x03, 0xbb, 0x01, 0x00]);
    assert_eq!(reg(&cpu, Register::BX), 0);
    // jbe after a zero result is taken
    let cpu = execute_program(&[0xb8, 0x01, 0x00, 0x83, 0xe8, 0x01, 0x76, 0x03, 0xbb, 0x01, 0x00]);
    assert_eq!(reg(&cpu, Register::BX), 0);
    // jo after signed overflow is taken, jno is not
    let cpu = execute_program(&[0xb8, 0xff, 0x7f, 0x83, 0xc0, 0x01, 0x70, 0x03, 0xbb, 0x01, 0x00]);
    assert_eq!(reg(&cpu, Register::BX), 0);
    let cpu = execute_program(&[0xb8, 0xff, 0x7f, 0x83, 0xc0, 0x01, 0x71, 0x03, 0xbb, 0x01, 0x00]);
    assert_eq!(reg(&cpu, Register::BX), 1);
}

#[test]
fn cx_based_jumps() {
    // jcxz with CX = 0 is taken
    let cpu = execute_program(&[0xe3, 0x03, 0xbb, 0x01, 0x00]);
    assert_eq!(reg(&cpu, Register::BX), 0);
    // mov cx,3; l: add bx,2; loop l
    let cpu = execute_program(&[0xb9, 0x03, 0x00, 0x83, 0xc3, 0x02, 0xe2, 0xfb]);
    assert_eq!(reg(&cpu, Register::BX), 6);
    assert_eq!(reg(&cpu, Register::CX), 0);
    // mov cx,5; l: cmp cx,cx (zero set); loopz l -> runs until CX = 0
    let cpu = execute_program(&[0xb9, 0x05, 0x00, 0x39, 0xc9, 0xe1, 0xfc]);
    assert_eq!(reg(&cpu, Register::CX), 0);
    // mov cx,5; l: cmp cx,cx; loopnz l -> stops after one pass
    let cpu = execute_program(&[0xb9, 0x05, 0x00, 0x39, 0xc9, 0xe0, 0xfc]);
    assert_eq!(reg(&cpu, Register::CX), 4);
    let _ = CondJumpOp::Loop(0).offset();
}

#[test]
fn execution_errors() {
    let mut cpu = Cpu::new();
    // mov bx,0xffff; mov word [bx],1: the word does not fit in memory
    cpu.load_instructions(&[0xbb, 0xff, 0xff, 0xc7, 0x07, 0x01, 0x00]);
    assert_eq!(cpu.execute(), Err(ExecutionError::MemoryOffset));

    let mut cpu = Cpu::new();
    // mov bx,0xffff; mov ax,[bx+2]: the offset leaves 16 bits
    cpu.load_instructions(&[0xbb, 0xff, 0xff, 0x8b, 0x47, 0x02]);
    assert_eq!(cpu.execute(), Err(ExecutionError::MemoryOffset));

    let mut cpu = Cpu::new();
    // add al,1: byte arithmetic is not supported
    cpu.load_instructions(&[0x04, 0x01]);
    assert_eq!(cpu.execute(), Err(ExecutionError::ByteArithmetic));

    let mut cpu = Cpu::new();
    // jmp backwards out of the segment
    cpu.load_instructions(&[0x74, 0x80]);
    cpu.flags.zero = true;
    assert_eq!(cpu.execute(), Err(ExecutionError::InstructionOffset));

    let mut cpu = Cpu::new();
    cpu.load_instructions(&[0x0c]);
    assert_eq!(cpu.execute(), Err(ExecutionError::Decode(DecodeError::OpCode(0x0c))));
}

#[test]
fn byte_moves_and_compares() {
    // mov al,200; mov [100],al; mov ah,[100]; cmp al,ah
    let cpu = execute_program(&[0xb0, 0xc8, 0xa2, 0x64, 0x00, 0x8a, 0x26, 0x64, 0x00, 0x38, 0xe0]);
    assert_eq!(cpu.mem[100], 0xc8);
    assert_eq!(cpu.gen_regs.get(&Register::AH), Value::Byte(-56));
    assert_eq!(reg(&cpu, Register::AX), 0xc8c8);
    assert!(cpu.flags.zero);
}

#[test]
fn failed_step_leaves_state_unchanged() {
    let mut cpu = Cpu::new();
    cpu.load_instructions(&[0x90]);
    assert_eq!(cpu.execute(), Err(ExecutionError::Decode(DecodeError::OpCode(0x90))));
    assert_eq!(cpu.ip, 0);
    assert_eq!(reg(&cpu, Register::AX), 0);
    assert!(!cpu.flags.zero);

    // mov ax,5; mov sp,1; push ax: SP would wrap to 0xffff, where a word
    // does not fit; the failing push is undone and IP stays at it.
    let mut cpu = Cpu::new();
    cpu.load_instructions(&[0xb8, 0x05, 0x00, 0xbc, 0x01, 0x00, 0x50]);
    assert_eq!(cpu.execute(), Err(ExecutionError::MemoryOffset));
    assert_eq!(cpu.ip, 6);
    assert_eq!(reg(&cpu, Register::SP), 1);
    assert_eq!(reg(&cpu, Register::AX), 5);
}

#[test]
fn pop_leaves_flags_alone() {
    // mov sp,0x100; mov ax,0; push ax; mov bx,7 (clears zero); pop cx
    let cpu = execute_program(&[0xbc, 0x00, 0x01, 0xb8, 0x00, 0x00, 0x50, 0xbb, 0x07, 0x00, 0x59]);
    assert_eq!(reg(&cpu, Register::CX), 0);
    assert!(!cpu.flags.zero);
    assert!(!cpu.flags.parity);
}
