use dora::codegen::CondCode;
use dora::cpu::{FReg, Mem, Reg};
use dora::encode::{encodable, put, size};
use dora::image::{assemble, code_size, image_size, offsets, pool_bytes};
use dora::lexer::Position;
use dora::masm::{FloatOp, Insn, IntOp, Label, MacroAssembler};
use dora::trap::Trap;
use dora::ty::MachineMode;

fn bytes(insn: Insn, rel: i32) -> Vec<u8> {
    let mut v = Vec::new();
    put(&mut v, insn, rel);
    v
}

#[test]
fn register_moves_carry_a_prefix() {
    // mov rax, rcx
    assert_eq!(bytes(Insn::CopyReg(MachineMode::Ptr, Reg::RAX, Reg::RCX), 0), vec![0x48, 0x89, 0xc8]);
    // mov eax, ecx
    assert_eq!(bytes(Insn::CopyReg(MachineMode::Int32, Reg::RAX, Reg::RCX), 0), vec![0x40, 0x89, 0xc8]);
    // mov r10, rdi
    assert_eq!(bytes(Insn::CopyReg(MachineMode::Int64, Reg::R10, Reg::RDI), 0), vec![0x49, 0x89, 0xfa]);
    // mov rdi, r15
    assert_eq!(bytes(Insn::CopyReg(MachineMode::Ptr, Reg::RDI, Reg::R15), 0), vec![0x4c, 0x89, 0xff]);
}

#[test]
fn immediates_are_stored_low_byte_first() {
    // mov eax, 0x12345678
    assert_eq!(
        bytes(Insn::LoadIntConst(MachineMode::Int32, Reg::RAX, 0x1234_5678), 0),
        vec![0x40, 0xb8, 0x78, 0x56, 0x34, 0x12]
    );
    // mov r11d, -1
    assert_eq!(
        bytes(Insn::LoadIntConst(MachineMode::Int32, Reg::R11, -1), 0),
        vec![0x41, 0xbb, 0xff, 0xff, 0xff, 0xff]
    );
    // mov rax, 0x0102030405060708
    assert_eq!(
        bytes(Insn::LoadIntConst(MachineMode::Int64, Reg::RAX, 0x0102_0304_0506_0708), 0),
        vec![0x48, 0xb8, 8, 7, 6, 5, 4, 3, 2, 1]
    );
    // mov r10, -2
    assert_eq!(
        bytes(Insn::LoadIntConst(MachineMode::Ptr, Reg::R10, -2), 0),
        vec![0x49, 0xba, 0xfe, 0xff, 0xff, 0xff, 0xff, 0xff, 0xff, 0xff]
    );
}

#[test]
fn memory_operands_have_a_base_an_index_and_a_displacement() {
    // mov rax, [rdi + 8]
    assert_eq!(
        bytes(Insn::LoadMem(MachineMode::Ptr, Reg::RAX, Mem::Base(Reg::RDI, 8)), 0),
        vec![0x48, 0x8b, 0x84, 0x27, 8, 0, 0, 0]
    );
    // mov rax, [rsp]
    assert_eq!(
        bytes(Insn::LoadMem(MachineMode::Ptr, Reg::RAX, Mem::Base(Reg::RSP, 0)), 0),
        vec![0x48, 0x8b, 0x84, 0x24, 0, 0, 0, 0]
    );
    // mov [rbp - 16], rdi
    assert_eq!(
        bytes(Insn::StoreMem(MachineMode::Ptr, Mem::Local(-16), Reg::RDI), 0),
        vec![0x48, 0x89, 0xbc, 0x25, 0xf0, 0xff, 0xff, 0xff]
    );
    // mov eax, [rax + r10 * 4 + 16]
    assert_eq!(
        bytes(Insn::LoadMem(MachineMode::Int32, Reg::RAX, Mem::Index(Reg::RAX, Reg::R10, 4, 16)), 0),
        vec![0x42, 0x8b, 0x84, 0x90, 16, 0, 0, 0]
    );
    // mov [r11 + rcx * 8 + 16], r10
    assert_eq!(
        bytes(Insn::StoreMem(MachineMode::Int64, Mem::Index(Reg::R11, Reg::RCX, 8, 16), Reg::R10), 0),
        vec![0x4d, 0x89, 0x94, 0xcb, 16, 0, 0, 0]
    );
    // movzx eax, byte [rax + r10 + 16]
    assert_eq!(
        bytes(Insn::LoadMem(MachineMode::Int8, Reg::RAX, Mem::Index(Reg::RAX, Reg::R10, 1, 16)), 0),
        vec![0x42, 0x0f, 0xb6, 0x84, 0x10, 16, 0, 0, 0]
    );
    // mov [rdi + 4], sil
    assert_eq!(
        bytes(Insn::StoreMem(MachineMode::Int8, Mem::Base(Reg::RDI, 4), Reg::RSI), 0),
        vec![0x40, 0x88, 0xb4, 0x27, 4, 0, 0, 0]
    );
}

#[test]
fn comparisons_set_the_flags() {
    // cmp rax, r10
    assert_eq!(bytes(Insn::CmpReg(MachineMode::Ptr, Reg::RAX, Reg::R10), 0), vec![0x4c, 0x39, 0xd0]);
    // test eax, eax
    assert_eq!(bytes(Insn::CmpZero(MachineMode::Int32, Reg::RAX), 0), vec![0x40, 0x85, 0xc0]);
    // cmp [rax + 8], r10d
    assert_eq!(
        bytes(Insn::CmpMem(MachineMode::Int32, Mem::Base(Reg::RAX, 8), Reg::R10), 0),
        vec![0x44, 0x39, 0x94, 0x20, 8, 0, 0, 0]
    );
    // cmp qword [r10 + 8], 3
    assert_eq!(
        bytes(Insn::CmpMemImm(MachineMode::Ptr, Mem::Base(Reg::R10, 8), 3), 0),
        vec![0x49, 0x81, 0xbc, 0x22, 8, 0, 0, 0, 3, 0, 0, 0]
    );
    // sete al; movzx eax, al
    assert_eq!(
        bytes(Insn::SetIf(Reg::RAX, CondCode::Equal), 0),
        vec![0x40, 0x0f, 0x94, 0xc0, 0x40, 0x0f, 0xb6, 0xc0]
    );
    // setl r10b; movzx r10d, r10b
    assert_eq!(
        bytes(Insn::SetIf(Reg::R10, CondCode::Less), 0),
        vec![0x41, 0x0f, 0x9c, 0xc2, 0x45, 0x0f, 0xb6, 0xd2]
    );
}

#[test]
fn arithmetic_works_in_the_left_operand() {
    // add eax, r10d; mov eax, eax
    assert_eq!(
        bytes(Insn::IntArith(IntOp::Add, MachineMode::Int32, Reg::RAX, Reg::RAX, Reg::R10), 0),
        vec![0x44, 0x01, 0xd0, 0x40, 0x89, 0xc0]
    );
    // sub rax, r10; mov rdi, rax
    assert_eq!(
        bytes(Insn::IntArith(IntOp::Sub, MachineMode::Int64, Reg::RDI, Reg::RAX, Reg::R10), 0),
        vec![0x4c, 0x29, 0xd0, 0x48, 0x89, 0xc7]
    );
    // imul eax, r10d; mov eax, eax
    assert_eq!(
        bytes(Insn::IntArith(IntOp::Mul, MachineMode::Int32, Reg::RAX, Reg::RAX, Reg::R10), 0),
        vec![0x41, 0x0f, 0xaf, 0xc2, 0x40, 0x89, 0xc0]
    );
    // mov eax, eax; cdq; idiv r10d; mov eax, eax
    assert_eq!(
        bytes(Insn::IntArith(IntOp::Div, MachineMode::Int32, Reg::RAX, Reg::RAX, Reg::R10), 0),
        vec![0x40, 0x89, 0xc0, 0x40, 0x99, 0x41, 0xf7, 0xfa, 0x40, 0x89, 0xc0]
    );
    // mov rax, rax; cqo; idiv r10; mov rax, rdx
    assert_eq!(
        bytes(Insn::IntArith(IntOp::Mod, MachineMode::Int64, Reg::RAX, Reg::RAX, Reg::R10), 0),
        vec![0x48, 0x89, 0xc0, 0x48, 0x99, 0x49, 0xf7, 0xfa, 0x48, 0x89, 0xd0]
    );
    // mov ecx, r10d; shl eax, cl; mov eax, eax
    assert_eq!(
        bytes(Insn::IntArith(IntOp::Shl, MachineMode::Int32, Reg::RAX, Reg::RAX, Reg::R10), 0),
        vec![0x44, 0x89, 0xd1, 0x40, 0xd3, 0xe0, 0x40, 0x89, 0xc0]
    );
    // neg: mov rax, rax; neg rax
    assert_eq!(
        bytes(Insn::IntNeg(MachineMode::Int64, Reg::RAX, Reg::RAX), 0),
        vec![0x48, 0x89, 0xc0, 0x48, 0xf7, 0xd8]
    );
    // not: mov eax, eax; not eax
    assert_eq!(
        bytes(Insn::IntNot(MachineMode::Int32, Reg::RAX, Reg::RAX), 0),
        vec![0x40, 0x89, 0xc0, 0x40, 0xf7, 0xd0]
    );
    // mov eax, eax; xor eax, 1
    assert_eq!(bytes(Insn::BoolNot(Reg::RAX, Reg::RAX), 0), vec![0x40, 0x89, 0xc0, 0x40, 0x83, 0xf0, 1]);
    // movsx eax, al
    assert_eq!(bytes(Insn::ExtendByte(MachineMode::Int32, Reg::RAX, Reg::RAX), 0), vec![0x40, 0x0f, 0xbe, 0xc0]);
    // movsxd rax, eax
    assert_eq!(bytes(Insn::ExtendIntLong(Reg::RAX, Reg::RAX), 0), vec![0x48, 0x63, 0xc0]);
}

#[test]
fn floating_point_instructions_begin_with_the_precision() {
    // movss xmm0, xmm1
    assert_eq!(
        bytes(Insn::CopyFreg(MachineMode::Float32, FReg::XMM0, FReg::XMM1), 0),
        vec![0xf3, 0x40, 0x0f, 0x10, 0xc1]
    );
    // movsd xmm0, [rbp - 8]
    assert_eq!(
        bytes(Insn::LoadfMem(MachineMode::Float64, FReg::XMM0, Mem::Local(-8)), 0),
        vec![0xf2, 0x40, 0x0f, 0x10, 0x84, 0x25, 0xf8, 0xff, 0xff, 0xff]
    );
    // movss [rbp - 4], xmm1
    assert_eq!(
        bytes(Insn::StorefMem(MachineMode::Float32, Mem::Local(-4), FReg::XMM1), 0),
        vec![0xf3, 0x40, 0x0f, 0x11, 0x8c, 0x25, 0xfc, 0xff, 0xff, 0xff]
    );
    // addsd xmm0, xmm1; movsd xmm0, xmm0
    assert_eq!(
        bytes(Insn::FloatArith(FloatOp::Add, MachineMode::Float64, FReg::XMM0, FReg::XMM0, FReg::XMM1), 0),
        vec![0xf2, 0x40, 0x0f, 0x58, 0xc1, 0xf2, 0x40, 0x0f, 0x10, 0xc0]
    );
    // divss xmm0, xmm1; movss xmm0, xmm0
    assert_eq!(
        bytes(Insn::FloatArith(FloatOp::Div, MachineMode::Float32, FReg::XMM0, FReg::XMM0, FReg::XMM1), 0),
        vec![0xf3, 0x40, 0x0f, 0x5e, 0xc1, 0xf3, 0x40, 0x0f, 0x10, 0xc0]
    );
    // ucomiss xmm0, xmm1
    assert_eq!(
        bytes(Insn::CmpFreg(MachineMode::Float32, FReg::XMM0, FReg::XMM1), 0),
        vec![0x40, 0x0f, 0x2e, 0xc1]
    );
    // ucomisd xmm0, xmm9
    assert_eq!(
        bytes(Insn::CmpFreg(MachineMode::Float64, FReg::XMM0, FReg::XMM9), 0),
        vec![0x66, 0x41, 0x0f, 0x2e, 0xc1]
    );
    // movsd xmm0, [rip - 24]
    assert_eq!(
        bytes(Insn::LoadFloatConst(MachineMode::Float64, FReg::XMM0, 0), -24),
        vec![0xf2, 0x40, 0x0f, 0x10, 0x05, 0xe8, 0xff, 0xff, 0xff]
    );
}

#[test]
fn control_instructions_hold_a_displacement() {
    assert_eq!(bytes(Insn::Debug, 0), vec![0xcc]);
    // jmp +5
    assert_eq!(bytes(Insn::Jump(Label(0)), 5), vec![0xe9, 5, 0, 0, 0]);
    // jmp -16
    assert_eq!(bytes(Insn::Jump(Label(0)), -16), vec![0xe9, 0xf0, 0xff, 0xff, 0xff]);
    // je +0x100
    assert_eq!(bytes(Insn::JumpIf(CondCode::Equal, Label(0)), 0x100), vec![0x0f, 0x84, 0, 1, 0, 0]);
    // jae -6
    assert_eq!(
        bytes(Insn::JumpIf(CondCode::UnsignedGreaterEq, Label(0)), -6),
        vec![0x0f, 0x83, 0xfa, 0xff, 0xff, 0xff]
    );
    // mov rax, [rip - 15]
    assert_eq!(bytes(Insn::LoadConstPool(Reg::RAX, 0), -15), vec![0x48, 0x8b, 0x05, 0xf1, 0xff, 0xff, 0xff]);
    // call rax
    assert_eq!(bytes(Insn::CallReg(Reg::RAX), 0), vec![0x40, 0xff, 0xd0]);
    // call r10
    assert_eq!(bytes(Insn::CallReg(Reg::R10), 0), vec![0x41, 0xff, 0xd2]);
    // mov r10, [the trap's number]
    assert_eq!(
        bytes(Insn::Trap(Trap::DIV0), 0),
        vec![0x4c, 0x8b, 0x14, 0x25, Trap::DIV0.code() as u8, 0, 0, 0]
    );
    // sub rsp, 0x120 in the prolog
    assert_eq!(
        bytes(Insn::Prolog(0x120), 0),
        vec![0x55, 0x48, 0x89, 0xe5, 0x48, 0x81, 0xec, 0x20, 1, 0, 0]
    );
    assert_eq!(bytes(Insn::Epilog(0x120), 0), vec![0x48, 0x89, 0xec, 0x5d, 0xc3]);
}

#[test]
fn size_is_the_number_of_bytes() {
    let all = vec![
        Insn::Debug,
        Insn::Prolog(16),
        Insn::Epilog(16),
        Insn::LoadMem(MachineMode::Int8, Reg::RAX, Mem::Local(-8)),
        Insn::LoadMem(MachineMode::Int64, Reg::R15, Mem::Index(Reg::R12, Reg::R13, 8, -1)),
        Insn::LoadfMem(MachineMode::Float32, FReg::XMM15, Mem::Base(Reg::R9, 4)),
        Insn::StoreMem(MachineMode::Int32, Mem::Local(-8), Reg::RAX),
        Insn::StorefMem(MachineMode::Float64, Mem::Local(-8), FReg::XMM0),
        Insn::CopyReg(MachineMode::Ptr, Reg::RAX, Reg::RCX),
        Insn::CopyFreg(MachineMode::Float64, FReg::XMM0, FReg::XMM1),
        Insn::LoadIntConst(MachineMode::Int8, Reg::RAX, 1),
        Insn::LoadIntConst(MachineMode::Ptr, Reg::RAX, 0),
        Insn::LoadFloatConst(MachineMode::Float32, FReg::XMM0, 4),
        Insn::LoadConstPool(Reg::RAX, 8),
        Insn::IntNeg(MachineMode::Int32, Reg::RAX, Reg::RAX),
        Insn::IntNot(MachineMode::Int64, Reg::RAX, Reg::RAX),
        Insn::BoolNot(Reg::RAX, Reg::RAX),
        Insn::IntArith(IntOp::Add, MachineMode::Int32, Reg::RAX, Reg::RAX, Reg::R10),
        Insn::IntArith(IntOp::Mul, MachineMode::Int32, Reg::RAX, Reg::RAX, Reg::R10),
        Insn::IntArith(IntOp::Div, MachineMode::Int32, Reg::RAX, Reg::RAX, Reg::R10),
        Insn::IntArith(IntOp::Mod, MachineMode::Int64, Reg::RAX, Reg::RAX, Reg::R10),
        Insn::IntArith(IntOp::Shr, MachineMode::Int64, Reg::RAX, Reg::RAX, Reg::R10),
        Insn::IntArith(IntOp::Xor, MachineMode::Int64, Reg::RAX, Reg::RAX, Reg::R10),
        Insn::FloatArith(FloatOp::Mul, MachineMode::Float32, FReg::XMM0, FReg::XMM0, FReg::XMM1),
        Insn::ExtendByte(MachineMode::Int64, Reg::RAX, Reg::RAX),
        Insn::ExtendIntLong(Reg::RAX, Reg::RAX),
        Insn::CmpReg(MachineMode::Int32, Reg::RAX, Reg::R10),
        Insn::CmpFreg(MachineMode::Float32, FReg::XMM0, FReg::XMM1),
        Insn::CmpFreg(MachineMode::Float64, FReg::XMM0, FReg::XMM1),
        Insn::CmpMem(MachineMode::Int32, Mem::Base(Reg::RAX, 8), Reg::R10),
        Insn::CmpMemImm(MachineMode::Int32, Mem::Base(Reg::RAX, 8), 0),
        Insn::CmpZero(MachineMode::Ptr, Reg::RAX),
        Insn::SetIf(Reg::RAX, CondCode::Greater),
        Insn::Jump(Label(0)),
        Insn::JumpIf(CondCode::Zero, Label(0)),
        Insn::CallReg(Reg::RAX),
        Insn::Trap(Trap::NIL),
    ];
    for insn in all {
        assert!(encodable(insn), "{:?}", insn);
        assert_eq!(bytes(insn, 0).len(), size(insn), "{:?}", insn);
        assert_eq!(bytes(insn, -1).len(), size(insn), "{:?}", insn);
    }
}

#[test]
fn awkward_operands_cannot_be_encoded() {
    // a division works in rax and rdx
    assert!(!encodable(Insn::IntArith(IntOp::Div, MachineMode::Int32, Reg::RAX, Reg::RAX, Reg::RDX)));
    assert!(!encodable(Insn::IntArith(IntOp::Mod, MachineMode::Int32, Reg::RAX, Reg::R10, Reg::RAX)));
    assert!(encodable(Insn::IntArith(IntOp::Div, MachineMode::Int32, Reg::RAX, Reg::RAX, Reg::RCX)));
    // a shift has its count in rcx
    assert!(!encodable(Insn::IntArith(IntOp::Shl, MachineMode::Int32, Reg::RCX, Reg::RCX, Reg::RAX)));
    assert!(encodable(Insn::IntArith(IntOp::Sar, MachineMode::Int32, Reg::RAX, Reg::RAX, Reg::RCX)));
    assert!(encodable(Insn::IntArith(IntOp::Add, MachineMode::Int32, Reg::RCX, Reg::RCX, Reg::RAX)));
    // the stack pointer is no index, and a scale is 1, 2, 4 or 8
    assert!(!encodable(Insn::LoadMem(MachineMode::Ptr, Reg::RAX, Mem::Index(Reg::RAX, Reg::RSP, 8, 0))));
    assert!(!encodable(Insn::LoadMem(MachineMode::Ptr, Reg::RAX, Mem::Index(Reg::RAX, Reg::RCX, 3, 0))));
    assert!(encodable(Insn::LoadMem(MachineMode::Ptr, Reg::RAX, Mem::Index(Reg::RSP, Reg::R12, 2, 0))));
    // integer instructions take integer modes, floating-point ones the others
    assert!(!encodable(Insn::LoadMem(MachineMode::Float32, Reg::RAX, Mem::Local(-8))));
    assert!(!encodable(Insn::LoadfMem(MachineMode::Int32, FReg::XMM0, Mem::Local(-8))));
    assert!(!encodable(Insn::CmpFreg(MachineMode::Ptr, FReg::XMM0, FReg::XMM1)));
    assert!(!encodable(Insn::CopyReg(MachineMode::Float64, Reg::RAX, Reg::RCX)));

    let mut masm = MacroAssembler::new();
    masm.load_mem(MachineMode::Float64, Reg::RAX, Mem::Local(-8));
    assert_eq!(assemble(&masm), None);
}

#[test]
fn jumps_go_to_the_place_of_their_target() {
    let mut masm = MacroAssembler::new();
    let top = masm.create_label();
    let end = masm.create_label();
    masm.bind_label(top);
    // 0: test eax, eax (3 bytes)
    masm.cmp_zero(MachineMode::Int32, Reg::RAX);
    // 3: je end (6 bytes)
    masm.jump_if(CondCode::Zero, end);
    // 9: mov eax, 0 (6 bytes)
    masm.load_int_const(MachineMode::Int32, Reg::RAX, 0);
    // 15: jmp top (5 bytes)
    masm.jump(top);
    // 20:
    masm.bind_label(end);
    masm.epilog(0);
    assert_eq!(offsets(&masm), Some(vec![0, 3, 9, 15, 20, 25]));
    assert_eq!(code_size(&masm), Some(25));
    assert_eq!(image_size(&masm), Some(25));
    assert_eq!(
        assemble(&masm),
        Some(vec![
            0x40, 0x85, 0xc0,
            // forward over 11 bytes
            0x0f, 0x84, 11, 0, 0, 0,
            0x40, 0xb8, 0, 0, 0, 0,
            // back over 20 bytes
            0xe9, 0xec, 0xff, 0xff, 0xff,
            0x48, 0x89, 0xec, 0x5d, 0xc3,
        ])
    );
}

#[test]
fn pool_lies_before_the_code() {
    let mut masm = MacroAssembler::new();
    masm.direct_call(0x1122_3344_5566_7788);
    masm.load_float_const(MachineMode::Float32, FReg::XMM0, 0x3f80_0000);
    masm.direct_call(0x0a0b);
    masm.epilog(0);
    // an address of 8 bytes, a literal of 4, padding, and an address
    assert_eq!(masm.dseg().size(), 24);
    assert_eq!(
        pool_bytes(masm.dseg()),
        vec![
            0x0b, 0x0a, 0, 0, 0, 0, 0, 0,
            0, 0, 0, 0,
            0, 0, 0x80, 0x3f,
            0x88, 0x77, 0x66, 0x55, 0x44, 0x33, 0x22, 0x11,
        ]
    );
    assert_eq!(offsets(&masm), Some(vec![0, 7, 10, 19, 26, 29, 34]));
    assert_eq!(image_size(&masm), Some(24 + 34));
    let image = assemble(&masm).unwrap();
    assert_eq!(image.len(), 58);
    assert_eq!(&image[..24], &pool_bytes(masm.dseg())[..]);
    assert_eq!(
        &image[24..],
        &[
            // mov rax, [rip - 15]: the first address, 8 bytes before the code
            0x48, 0x8b, 0x05, 0xf1, 0xff, 0xff, 0xff,
            0x40, 0xff, 0xd0,
            // movss xmm0, [rip - 31]: the literal, 12 bytes before the code
            0xf3, 0x40, 0x0f, 0x10, 0x05, 0xe1, 0xff, 0xff, 0xff,
            // mov rax, [rip - 50]: the second address, 24 bytes before the code
            0x48, 0x8b, 0x05, 0xce, 0xff, 0xff, 0xff,
            0x40, 0xff, 0xd0,
            0x48, 0x89, 0xec, 0x5d, 0xc3,
        ][..]
    );
}

#[test]
fn trap_exits_are_encoded_behind_the_code() {
    let mut masm = MacroAssembler::new();
    masm.prolog(16);
    let l = masm.test_if_nil(Reg::RAX);
    masm.emit_bailout(l, Trap::NIL, Position::new(3, 1));
    masm.epilog(16);
    let f = masm.jit(16, 0x4000);
    assert_eq!(f.image_start(), 0x4000);
    let image = f.image().unwrap();
    assert_eq!(image.len(), f.fct_len());
    assert_eq!(
        &image[11..],
        &[
            // test rax, rax
            0x48, 0x85, 0xc0,
            // je over the epilog, to the trap
            0x0f, 0x84, 5, 0, 0, 0,
            0x48, 0x89, 0xec, 0x5d, 0xc3,
            0x4c, 0x8b, 0x14, 0x25, Trap::NIL.code() as u8, 0, 0, 0,
        ][..]
    );
}
