use ajanta_build_tool::types::{
    checked_clflushopt_operand, clflushopt_operand, Condition, ImmKind, LoadKind, MemOp, Operands,
    Reg, RegIndex, RegMem, RegSize, Scale, SegReg, Size,
};

#[test]
fn register_codes() {
    let regs = [
        Reg::rax, Reg::rcx, Reg::rdx, Reg::rbx, Reg::rsp, Reg::rbp, Reg::rsi, Reg::rdi, Reg::r8,
        Reg::r9, Reg::r10, Reg::r11, Reg::r12, Reg::r13, Reg::r14, Reg::r15,
    ];
    for (code, reg) in regs.iter().enumerate() {
        assert_eq!(reg.code() as usize, code);
    }
}

#[test]
fn index_register_codes_skip_rsp() {
    let regs = [
        (RegIndex::rax, 0, Reg::rax),
        (RegIndex::rcx, 1, Reg::rcx),
        (RegIndex::rdx, 2, Reg::rdx),
        (RegIndex::rbx, 3, Reg::rbx),
        (RegIndex::rbp, 5, Reg::rbp),
        (RegIndex::rsi, 6, Reg::rsi),
        (RegIndex::rdi, 7, Reg::rdi),
        (RegIndex::r8, 8, Reg::r8),
        (RegIndex::r9, 9, Reg::r9),
        (RegIndex::r10, 10, Reg::r10),
        (RegIndex::r11, 11, Reg::r11),
        (RegIndex::r12, 12, Reg::r12),
        (RegIndex::r13, 13, Reg::r13),
        (RegIndex::r14, 14, Reg::r14),
        (RegIndex::r15, 15, Reg::r15),
    ];
    for (index, code, reg) in regs {
        assert_eq!(index.code(), code);
        assert_eq!(index.reg(), reg);
    }
}

#[test]
fn condition_codes() {
    let conditions = [
        Condition::Overflow,
        Condition::NotOverflow,
        Condition::Below,
        Condition::AboveOrEqual,
        Condition::Equal,
        Condition::NotEqual,
        Condition::BelowOrEqual,
        Condition::Above,
        Condition::Sign,
        Condition::NotSign,
        Condition::Parity,
        Condition::NotParity,
        Condition::Less,
        Condition::GreaterOrEqual,
        Condition::LessOrEqual,
        Condition::Greater,
    ];
    for (code, condition) in conditions.iter().enumerate() {
        assert_eq!(condition.code() as usize, code);
    }
}

#[test]
fn scale_codes() {
    assert_eq!(Scale::x1.code(), 0);
    assert_eq!(Scale::x2.code(), 1);
    assert_eq!(Scale::x4.code(), 2);
    assert_eq!(Scale::x8.code(), 3);
}

#[test]
fn defaults_are_64_bits() {
    assert_eq!(LoadKind::default(), LoadKind::U64);
    assert_eq!(Size::default(), Size::U64);
}

#[test]
fn register_sizes_from_bits() {
    assert_eq!(RegSize::from_bits(32), Some(RegSize::R32));
    assert_eq!(RegSize::from_bits(64), Some(RegSize::R64));
    for bits in [0, 8, 16, 31, 33, 63, 65, 128, 255] {
        assert_eq!(RegSize::from_bits(bits), None);
    }
}

#[test]
fn segments_from_selectors() {
    assert_eq!(SegReg::from_selector(1), Some(SegReg::fs));
    assert_eq!(SegReg::from_selector(2), Some(SegReg::gs));
    for selector in [0, 3, 4, 255] {
        assert_eq!(SegReg::from_selector(selector), None);
    }
}

#[test]
fn flush_operand() {
    assert_eq!(
        clflushopt_operand(None, 64, Reg::rdi, -8),
        MemOp::BaseOffset { seg: None, size: RegSize::R64, base: Reg::rdi, offset: -8 }
    );
    assert_eq!(
        clflushopt_operand(Some(1), 32, Reg::r12, 0x40),
        MemOp::BaseOffset { seg: Some(SegReg::fs), size: RegSize::R32, base: Reg::r12, offset: 0x40 }
    );
    assert_eq!(
        clflushopt_operand(Some(2), 64, Reg::rax, 0),
        MemOp::BaseOffset { seg: Some(SegReg::gs), size: RegSize::R64, base: Reg::rax, offset: 0 }
    );
}

#[test]
fn checked_flush_operand() {
    assert_eq!(
        checked_clflushopt_operand(Some(2), 32, Reg::rbx, 1),
        Some(clflushopt_operand(Some(2), 32, Reg::rbx, 1))
    );
    assert_eq!(checked_clflushopt_operand(Some(0), 32, Reg::rbx, 1), None);
    assert_eq!(checked_clflushopt_operand(Some(3), 64, Reg::rbx, 1), None);
    assert_eq!(checked_clflushopt_operand(None, 16, Reg::rbx, 1), None);
    assert_eq!(checked_clflushopt_operand(Some(1), 0, Reg::rbx, 1), None);
}

#[test]
fn operands_compare_by_their_fields() {
    let mem = MemOp::RipRelative { seg: None, offset: 4 };
    let a = Operands::RegMem_Imm { reg_mem: RegMem::Mem { mem }, imm: ImmKind::I64 { value: -1 } };
    let b = Operands::RegMem_Imm { reg_mem: RegMem::Mem { mem }, imm: ImmKind::I64 { value: -1 } };
    let c = Operands::RegMem_Imm { reg_mem: RegMem::Mem { mem }, imm: ImmKind::I32 { value: 1 } };
    assert_eq!(a, b);
    assert_ne!(a, c);
    assert_ne!(
        Operands::RegMem_Reg { size: Size::U8, reg_mem: RegMem::Reg { reg: Reg::rax }, reg: Reg::rcx },
        Operands::Reg_RegMem { size: Size::U8, reg: Reg::rcx, reg_mem: RegMem::Reg { reg: Reg::rax } }
    );
}
