//! Operand types of the x86-64 assembler front end, and the decoding of the
//! one operand that a caller gives as plain numbers.
//!
//! The assembler that takes these operands and the Python class around it
//! are kept outside this crate: the class is made of attributes of `pyo3`,
//! which a verified crate cannot hold, and every method of it only forwards
//! to the assembler.

use vstd::prelude::*;

verus! {

/// A general-purpose register.
#[allow(non_camel_case_types)]
#[derive(Copy, Clone, PartialEq, Eq, Debug, Structural)]
pub enum Reg {
    rax,
    rcx,
    rdx,
    rbx,
    rsp,
    rbp,
    rsi,
    rdi,
    r8,
    r9,
    r10,
    r11,
    r12,
    r13,
    r14,
    r15,
}

impl Reg {
    /// The number of the register in an instruction's encoding.
    pub open spec fn spec_code(self) -> u8 {
        match self {
            Reg::rax => 0,
            Reg::rcx => 1,
            Reg::rdx => 2,
            Reg::rbx => 3,
            Reg::rsp => 4,
            Reg::rbp => 5,
            Reg::rsi => 6,
            Reg::rdi => 7,
            Reg::r8 => 8,
            Reg::r9 => 9,
            Reg::r10 => 10,
            Reg::r11 => 11,
            Reg::r12 => 12,
            Reg::r13 => 13,
            Reg::r14 => 14,
            Reg::r15 => 15,
        }
    }

    #[verifier::when_used_as_spec(spec_code)]
    pub fn code(self) -> (r: u8)
        ensures
            r == self.spec_code(),
            r < 16,
    {
        match self {
            Reg::rax => 0,
            Reg::rcx => 1,
            Reg::rdx => 2,
            Reg::rbx => 3,
            Reg::rsp => 4,
            Reg::rbp => 5,
            Reg::rsi => 6,
            Reg::rdi => 7,
            Reg::r8 => 8,
            Reg::r9 => 9,
            Reg::r10 => 10,
            Reg::r11 => 11,
            Reg::r12 => 12,
            Reg::r13 => 13,
            Reg::r14 => 14,
            Reg::r15 => 15,
        }
    }
}

/// An immediate operand and its width.
#[allow(inconsistent_fields)]
#[derive(Copy, Clone, PartialEq, Eq, Debug, Structural)]
pub enum ImmKind {
    I8 { value: u8 },
    I16 { value: u16 },
    I32 { value: u32 },
    /// A 32-bit value that the processor sign-extends to 64 bits.
    I64 { value: i32 },
}

/// Width and signedness of a load.
#[derive(Copy, Clone, PartialEq, Eq, Debug, Structural)]
pub enum LoadKind {
    U8,
    U16,
    U32,
    U64,
    I8,
    I16,
    I32,
}

impl Default for LoadKind {
    fn default() -> (r: LoadKind)
        ensures
            r == LoadKind::U64,
    {
        LoadKind::U64
    }
}

/// Width of a register operand.
#[derive(Copy, Clone, PartialEq, Eq, Debug, Structural)]
pub enum RegSize {
    R32,
    R64,
}

impl RegSize {
    /// The register width of `bits` bits, if there is one.
    pub fn from_bits(bits: u8) -> (r: Option<RegSize>)
        ensures
            r == (if bits == 32 {
                Some(RegSize::R32)
            } else if bits == 64 {
                Some(RegSize::R64)
            } else {
                None
            }),
    {
        if bits == 32 {
            Some(RegSize::R32)
        } else if bits == 64 {
            Some(RegSize::R64)
        } else {
            None
        }
    }
}

/// Width of an operation.
#[derive(Copy, Clone, PartialEq, Eq, Debug, Structural)]
pub enum Size {
    U8,
    U16,
    U32,
    U64,
}

impl Default for Size {
    fn default() -> (r: Size)
        ensures
            r == Size::U64,
    {
        Size::U64
    }
}

/// A condition code.
#[derive(Copy, Clone, PartialEq, Eq, Debug, Structural)]
pub enum Condition {
    Overflow,
    NotOverflow,
    /// For unsigned values.
    Below,
    /// For unsigned values.
    AboveOrEqual,
    Equal,
    NotEqual,
    /// For unsigned values.
    BelowOrEqual,
    /// For unsigned values.
    Above,
    Sign,
    NotSign,
    Parity,
    NotParity,
    /// For signed values.
    Less,
    /// For signed values.
    GreaterOrEqual,
    /// For signed values.
    LessOrEqual,
    /// For signed values.
    Greater,
}

impl Condition {
    /// The number of the condition in an instruction's encoding.
    pub open spec fn spec_code(self) -> u8 {
        match self {
            Condition::Overflow => 0,
            Condition::NotOverflow => 1,
            Condition::Below => 2,
            Condition::AboveOrEqual => 3,
            Condition::Equal => 4,
            Condition::NotEqual => 5,
            Condition::BelowOrEqual => 6,
            Condition::Above => 7,
            Condition::Sign => 8,
            Condition::NotSign => 9,
            Condition::Parity => 10,
            Condition::NotParity => 11,
            Condition::Less => 12,
            Condition::GreaterOrEqual => 13,
            Condition::LessOrEqual => 14,
            Condition::Greater => 15,
        }
    }

    #[verifier::when_used_as_spec(spec_code)]
    pub fn code(self) -> (r: u8)
        ensures
            r == self.spec_code(),
            r < 16,
    {
        match self {
            Condition::Overflow => 0,
            Condition::NotOverflow => 1,
            Condition::Below => 2,
            Condition::AboveOrEqual => 3,
            Condition::Equal => 4,
            Condition::NotEqual => 5,
            Condition::BelowOrEqual => 6,
            Condition::Above => 7,
            Condition::Sign => 8,
            Condition::NotSign => 9,
            Condition::Parity => 10,
            Condition::NotParity => 11,
            Condition::Less => 12,
            Condition::GreaterOrEqual => 13,
            Condition::LessOrEqual => 14,
            Condition::Greater => 15,
        }
    }
}

/// A register that can serve as an index: any but `rsp`.
#[allow(non_camel_case_types)]
#[derive(Copy, Clone, PartialEq, Eq, Debug, Structural)]
pub enum RegIndex {
    rax,
    rcx,
    rdx,
    rbx,
    rbp,
    rsi,
    rdi,
    r8,
    r9,
    r10,
    r11,
    r12,
    r13,
    r14,
    r15,
}

impl RegIndex {
    /// The register that serves as the index.
    pub open spec fn spec_reg(self) -> Reg {
        match self {
            RegIndex::rax => Reg::rax,
            RegIndex::rcx => Reg::rcx,
            RegIndex::rdx => Reg::rdx,
            RegIndex::rbx => Reg::rbx,
            RegIndex::rbp => Reg::rbp,
            RegIndex::rsi => Reg::rsi,
            RegIndex::rdi => Reg::rdi,
            RegIndex::r8 => Reg::r8,
            RegIndex::r9 => Reg::r9,
            RegIndex::r10 => Reg::r10,
            RegIndex::r11 => Reg::r11,
            RegIndex::r12 => Reg::r12,
            RegIndex::r13 => Reg::r13,
            RegIndex::r14 => Reg::r14,
            RegIndex::r15 => Reg::r15,
        }
    }

    /// The number of the register in an instruction's encoding: that of the
    /// register itself, so never 4.
    pub open spec fn spec_code(self) -> u8 {
        self.spec_reg().spec_code()
    }

    #[verifier::when_used_as_spec(spec_reg)]
    pub fn reg(self) -> (r: Reg)
        ensures
            r == self.spec_reg(),
            r != Reg::rsp,
    {
        match self {
            RegIndex::rax => Reg::rax,
            RegIndex::rcx => Reg::rcx,
            RegIndex::rdx => Reg::rdx,
            RegIndex::rbx => Reg::rbx,
            RegIndex::rbp => Reg::rbp,
            RegIndex::rsi => Reg::rsi,
            RegIndex::rdi => Reg::rdi,
            RegIndex::r8 => Reg::r8,
            RegIndex::r9 => Reg::r9,
            RegIndex::r10 => Reg::r10,
            RegIndex::r11 => Reg::r11,
            RegIndex::r12 => Reg::r12,
            RegIndex::r13 => Reg::r13,
            RegIndex::r14 => Reg::r14,
            RegIndex::r15 => Reg::r15,
        }
    }

    #[verifier::when_used_as_spec(spec_code)]
    pub fn code(self) -> (r: u8)
        ensures
            r == self.spec_code(),
            r < 16,
            r != 4,
    {
        self.reg().code()
    }
}

/// A segment register.
#[allow(non_camel_case_types)]
#[derive(Copy, Clone, PartialEq, Eq, Debug, Structural)]
pub enum SegReg {
    fs,
    gs,
}

impl SegReg {
    /// The segment register that `selector` stands for: 1 for `fs`, 2 for
    /// `gs`.
    pub fn from_selector(selector: u8) -> (r: Option<SegReg>)
        ensures
            r == (if selector == 1 {
                Some(SegReg::fs)
            } else if selector == 2 {
                Some(SegReg::gs)
            } else {
                None
            }),
    {
        if selector == 1 {
            Some(SegReg::fs)
        } else if selector == 2 {
            Some(SegReg::gs)
        } else {
            None
        }
    }
}

/// The factor by which an index register is scaled.
#[allow(non_camel_case_types)]
#[derive(Copy, Clone, PartialEq, Eq, Debug, Structural)]
pub enum Scale {
    x1,
    x2,
    x4,
    x8,
}

impl Scale {
    /// The two bits that stand for the factor in an instruction's encoding.
    pub open spec fn spec_code(self) -> u8 {
        match self {
            Scale::x1 => 0,
            Scale::x2 => 1,
            Scale::x4 => 2,
            Scale::x8 => 3,
        }
    }

    /// The factor itself.
    pub open spec fn factor(self) -> nat {
        match self {
            Scale::x1 => 1,
            Scale::x2 => 2,
            Scale::x4 => 4,
            Scale::x8 => 8,
        }
    }

    #[verifier::when_used_as_spec(spec_code)]
    pub fn code(self) -> (r: u8)
        ensures
            r == self.spec_code(),
            r < 4,
    {
        match self {
            Scale::x1 => 0,
            Scale::x2 => 1,
            Scale::x4 => 2,
            Scale::x8 => 3,
        }
    }
}

/// A memory operand.
#[derive(Copy, Clone, PartialEq, Eq, Debug, Structural)]
pub enum MemOp {
    /// segment:base + offset
    BaseOffset { seg: Option<SegReg>, size: RegSize, base: Reg, offset: i32 },
    /// segment:base + index * scale + offset
    BaseIndexScaleOffset {
        seg: Option<SegReg>,
        size: RegSize,
        base: Reg,
        index: RegIndex,
        scale: Scale,
        offset: i32,
    },
    /// segment:index * scale + offset
    IndexScaleOffset { seg: Option<SegReg>, size: RegSize, index: RegIndex, scale: Scale, offset: i32 },
    /// segment:offset
    Offset { seg: Option<SegReg>, size: RegSize, offset: i32 },
    /// segment:rip + offset
    RipRelative { seg: Option<SegReg>, offset: i32 },
}

/// An operand that is a register or a place in memory.
#[derive(Copy, Clone, PartialEq, Eq, Debug, Structural)]
pub enum RegMem {
    Reg { reg: Reg },
    Mem { mem: MemOp },
}

/// The operands of a two-operand instruction.
#[allow(non_camel_case_types)]
#[derive(Copy, Clone, PartialEq, Eq, Debug, Structural)]
pub enum Operands {
    RegMem_Reg { size: Size, reg_mem: RegMem, reg: Reg },
    Reg_RegMem { size: Size, reg: Reg, reg_mem: RegMem },
    RegMem_Imm { reg_mem: RegMem, imm: ImmKind },
}

/// The segment that a selector of a cache-line flush names: none, or one of
/// the two that `SegReg::from_selector` knows.
pub open spec fn flush_segment(seg: Option<u8>) -> Option<SegReg> {
    match seg {
        None => None,
        Some(selector) => if selector == 1 {
            Some(SegReg::fs)
        } else {
            Some(SegReg::gs)
        },
    }
}

/// The memory operand of a cache-line flush, from the plain numbers that a
/// caller gives: a segment selector or none, the width of the base register
/// in bits, the base register and the offset.
pub fn clflushopt_operand(seg: Option<u8>, reg_size: u8, base: Reg, offset: i32) -> (mem: MemOp)
    requires
        seg matches Some(selector) ==> selector == 1 || selector == 2,
        reg_size == 32 || reg_size == 64,
    ensures
        mem == (MemOp::BaseOffset {
            seg: flush_segment(seg),
            size: if reg_size == 32 {
                RegSize::R32
            } else {
                RegSize::R64
            },
            base,
            offset,
        }),
{
    let seg = match seg {
        Some(selector) => SegReg::from_selector(selector),
        None => None,
    };
    let size = match RegSize::from_bits(reg_size) {
        Some(size) => size,
        None => RegSize::R64,
    };
    MemOp::BaseOffset { seg, size, base, offset }
}

/// The memory operand of a cache-line flush, or `None` where the selector
/// names no segment or the width is no register width.
pub fn checked_clflushopt_operand(seg: Option<u8>, reg_size: u8, base: Reg, offset: i32) -> (r:
    Option<MemOp>)
    ensures
        r is Some <==> (seg matches Some(selector) ==> selector == 1 || selector == 2) && (reg_size
            == 32 || reg_size == 64),
        r is Some ==> r->0 == (MemOp::BaseOffset {
            seg: flush_segment(seg),
            size: if reg_size == 32 {
                RegSize::R32
            } else {
                RegSize::R64
            },
            base,
            offset,
        }),
{
    let valid_seg = match seg {
        Some(selector) => selector == 1 || selector == 2,
        None => true,
    };
    if valid_seg && (reg_size == 32 || reg_size == 64) {
        Some(clflushopt_operand(seg, reg_size, base, offset))
    } else {
        None
    }
}

} // verus!
