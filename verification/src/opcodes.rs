use vstd::prelude::*;

use crate::cpu::AddressingMode;

verus! {

/// The instructions this interpreter knows.
#[derive(Debug, Clone, Copy)]
pub enum Mnemonic {
    /// Force interrupt; this interpreter stops on it.
    Brk,
    /// Transfer A to X.
    Tax,
    /// Increment X.
    Inx,
    /// Load A.
    Lda,
    /// Add with carry.
    Adc,
    /// Bitwise AND with A.
    And,
    /// Bitwise exclusive OR with A.
    Eor,
    /// Compare with A.
    Cmp,
    /// Store A.
    Sta,
    /// Arithmetic shift left (of A when the mode is `NoneAddressing`).
    Asl,
    /// Branch if carry clear.
    Bcc,
    /// Branch if carry set.
    Bcs,
    /// Branch if overflow clear.
    Bvc,
    /// Branch if overflow set.
    Bvs,
    /// Branch if equal (zero set).
    Beq,
    /// Branch if not equal (zero clear).
    Bne,
    /// Branch if minus (negative set).
    Bmi,
    /// Branch if plus (negative clear).
    Bpl,
    /// Bit test.
    Bit,
    /// Clear carry.
    Clc,
    /// Clear decimal mode.
    Cld,
    /// Clear interrupt disable.
    Cli,
    /// Clear overflow.
    Clv,
    /// Compare with X.
    Cpx,
    /// Compare with Y.
    Cpy,
    /// Decrement memory.
    Dec,
    /// Decrement X.
    Dex,
    /// Decrement Y.
    Dey,
}

/// One entry of the opcode table.
#[derive(Debug, Clone, Copy)]
pub struct OpCode {
    pub code: u8,
    pub mnemonic: Mnemonic,
    /// Length of the instruction in bytes, opcode included.
    pub len: u8,
    pub cycles: u8,
    pub mode: AddressingMode,
}

/// The table entry with these fields.
pub open spec fn op(code: u8, mnemonic: Mnemonic, len: u8, cycles: u8, mode: AddressingMode) -> OpCode {
    OpCode { code, mnemonic, len, cycles, mode }
}

impl OpCode {
    pub fn new(code: u8, mnemonic: Mnemonic, len: u8, cycles: u8, mode: AddressingMode) -> (r: OpCode)
        ensures
            r == op(code, mnemonic, len, cycles, mode),
    {
        OpCode { code, mnemonic, len, cycles, mode }
    }
}

/// The opcode table: the entry for each opcode byte that the interpreter
/// executes, and `None` for every other byte.
pub open spec fn opcode_table(code: u8) -> Option<OpCode> {
    match code {
        0x00 => Some(op(0x00, Mnemonic::Brk, 1, 7, AddressingMode::NoneAddressing)),
        0xaa => Some(op(0xaa, Mnemonic::Tax, 1, 2, AddressingMode::NoneAddressing)),
        0xe8 => Some(op(0xe8, Mnemonic::Inx, 1, 2, AddressingMode::NoneAddressing)),
        0xa9 => Some(op(0xa9, Mnemonic::Lda, 2, 2, AddressingMode::Immediate)),
        0xa5 => Some(op(0xa5, Mnemonic::Lda, 2, 3, AddressingMode::ZeroPage)),
        0xb5 => Some(op(0xb5, Mnemonic::Lda, 2, 4, AddressingMode::ZeroPage_X)),
        0xad => Some(op(0xad, Mnemonic::Lda, 3, 4, AddressingMode::Absolute)),
        0xbd => Some(op(0xbd, Mnemonic::Lda, 3, 4, AddressingMode::Absolute_X)),
        0xb9 => Some(op(0xb9, Mnemonic::Lda, 3, 4, AddressingMode::Absolute_Y)),
        0xa1 => Some(op(0xa1, Mnemonic::Lda, 2, 6, AddressingMode::Indirect_X)),
        0xb1 => Some(op(0xb1, Mnemonic::Lda, 2, 5, AddressingMode::Indirect_Y)),
        0x69 => Some(op(0x69, Mnemonic::Adc, 2, 2, AddressingMode::Immediate)),
        0x65 => Some(op(0x65, Mnemonic::Adc, 2, 3, AddressingMode::ZeroPage)),
        0x75 => Some(op(0x75, Mnemonic::Adc, 2, 4, AddressingMode::ZeroPage_X)),
        0x6d => Some(op(0x6d, Mnemonic::Adc, 3, 4, AddressingMode::Absolute)),
        0x7d => Some(op(0x7d, Mnemonic::Adc, 3, 4, AddressingMode::Absolute_X)),
        0x79 => Some(op(0x79, Mnemonic::Adc, 3, 4, AddressingMode::Absolute_Y)),
        0x61 => Some(op(0x61, Mnemonic::Adc, 2, 6, AddressingMode::Indirect_X)),
        0x71 => Some(op(0x71, Mnemonic::Adc, 2, 5, AddressingMode::Indirect_Y)),
        0x29 => Some(op(0x29, Mnemonic::And, 2, 2, AddressingMode::Immediate)),
        0x25 => Some(op(0x25, Mnemonic::And, 2, 3, AddressingMode::ZeroPage)),
        0x35 => Some(op(0x35, Mnemonic::And, 2, 4, AddressingMode::ZeroPage_X)),
        0x2d => Some(op(0x2d, Mnemonic::And, 3, 4, AddressingMode::Absolute)),
        0x3d => Some(op(0x3d, Mnemonic::And, 3, 4, AddressingMode::Absolute_X)),
        0x39 => Some(op(0x39, Mnemonic::And, 3, 4, AddressingMode::Absolute_Y)),
        0x21 => Some(op(0x21, Mnemonic::And, 2, 6, AddressingMode::Indirect_X)),
        0x31 => Some(op(0x31, Mnemonic::And, 2, 5, AddressingMode::Indirect_Y)),
        0x49 => Some(op(0x49, Mnemonic::Eor, 2, 2, AddressingMode::Immediate)),
        0x45 => Some(op(0x45, Mnemonic::Eor, 2, 3, AddressingMode::ZeroPage)),
        0x55 => Some(op(0x55, Mnemonic::Eor, 2, 4, AddressingMode::ZeroPage_X)),
        0x4d => Some(op(0x4d, Mnemonic::Eor, 3, 4, AddressingMode::Absolute)),
        0x5d => Some(op(0x5d, Mnemonic::Eor, 3, 4, AddressingMode::Absolute_X)),
        0x59 => Some(op(0x59, Mnemonic::Eor, 3, 4, AddressingMode::Absolute_Y)),
        0x41 => Some(op(0x41, Mnemonic::Eor, 2, 6, AddressingMode::Indirect_X)),
        0x51 => Some(op(0x51, Mnemonic::Eor, 2, 5, AddressingMode::Indirect_Y)),
        0xc9 => Some(op(0xc9, Mnemonic::Cmp, 2, 2, AddressingMode::Immediate)),
        0xc5 => Some(op(0xc5, Mnemonic::Cmp, 2, 3, AddressingMode::ZeroPage)),
        0xd5 => Some(op(0xd5, Mnemonic::Cmp, 2, 4, AddressingMode::ZeroPage_X)),
        0xcd => Some(op(0xcd, Mnemonic::Cmp, 3, 4, AddressingMode::Absolute)),
        0xdd => Some(op(0xdd, Mnemonic::Cmp, 3, 4, AddressingMode::Absolute_X)),
        0xd9 => Some(op(0xd9, Mnemonic::Cmp, 3, 4, AddressingMode::Absolute_Y)),
        0xc1 => Some(op(0xc1, Mnemonic::Cmp, 2, 6, AddressingMode::Indirect_X)),
        0xd1 => Some(op(0xd1, Mnemonic::Cmp, 2, 5, AddressingMode::Indirect_Y)),
        0x85 => Some(op(0x85, Mnemonic::Sta, 2, 3, AddressingMode::ZeroPage)),
        0x95 => Some(op(0x95, Mnemonic::Sta, 2, 4, AddressingMode::ZeroPage_X)),
        0x8d => Some(op(0x8d, Mnemonic::Sta, 3, 4, AddressingMode::Absolute)),
        0x9d => Some(op(0x9d, Mnemonic::Sta, 3, 5, AddressingMode::Absolute_X)),
        0x99 => Some(op(0x99, Mnemonic::Sta, 3, 5, AddressingMode::Absolute_Y)),
        0x81 => Some(op(0x81, Mnemonic::Sta, 2, 6, AddressingMode::Indirect_X)),
        0x91 => Some(op(0x91, Mnemonic::Sta, 2, 6, AddressingMode::Indirect_Y)),
        0x0a => Some(op(0x0a, Mnemonic::Asl, 1, 2, AddressingMode::NoneAddressing)),
        0x06 => Some(op(0x06, Mnemonic::Asl, 2, 5, AddressingMode::ZeroPage)),
        0x16 => Some(op(0x16, Mnemonic::Asl, 2, 6, AddressingMode::ZeroPage_X)),
        0x0e => Some(op(0x0e, Mnemonic::Asl, 3, 6, AddressingMode::Absolute)),
        0x1e => Some(op(0x1e, Mnemonic::Asl, 3, 7, AddressingMode::Absolute_X)),
        0x90 => Some(op(0x90, Mnemonic::Bcc, 2, 2, AddressingMode::NoneAddressing)),
        0xb0 => Some(op(0xb0, Mnemonic::Bcs, 2, 2, AddressingMode::NoneAddressing)),
        0x50 => Some(op(0x50, Mnemonic::Bvc, 2, 2, AddressingMode::NoneAddressing)),
        0x70 => Some(op(0x70, Mnemonic::Bvs, 2, 2, AddressingMode::NoneAddressing)),
        0xf0 => Some(op(0xf0, Mnemonic::Beq, 2, 2, AddressingMode::NoneAddressing)),
        0xd0 => Some(op(0xd0, Mnemonic::Bne, 2, 2, AddressingMode::NoneAddressing)),
        0x30 => Some(op(0x30, Mnemonic::Bmi, 2, 2, AddressingMode::NoneAddressing)),
        0x10 => Some(op(0x10, Mnemonic::Bpl, 2, 2, AddressingMode::NoneAddressing)),
        0x24 => Some(op(0x24, Mnemonic::Bit, 2, 3, AddressingMode::ZeroPage)),
        0x2c => Some(op(0x2c, Mnemonic::Bit, 3, 4, AddressingMode::Absolute)),
        0x18 => Some(op(0x18, Mnemonic::Clc, 1, 2, AddressingMode::NoneAddressing)),
        0xd8 => Some(op(0xd8, Mnemonic::Cld, 1, 2, AddressingMode::NoneAddressing)),
        0x58 => Some(op(0x58, Mnemonic::Cli, 1, 2, AddressingMode::NoneAddressing)),
        0xb8 => Some(op(0xb8, Mnemonic::Clv, 1, 2, AddressingMode::NoneAddressing)),
        0xe0 => Some(op(0xe0, Mnemonic::Cpx, 2, 2, AddressingMode::Immediate)),
        0xe4 => Some(op(0xe4, Mnemonic::Cpx, 2, 3, AddressingMode::ZeroPage)),
        0xec => Some(op(0xec, Mnemonic::Cpx, 3, 4, AddressingMode::Absolute)),
        0xc0 => Some(op(0xc0, Mnemonic::Cpy, 2, 2, AddressingMode::Immediate)),
        0xc4 => Some(op(0xc4, Mnemonic::Cpy, 2, 3, AddressingMode::ZeroPage)),
        0xcc => Some(op(0xcc, Mnemonic::Cpy, 3, 4, AddressingMode::Absolute)),
        0xc6 => Some(op(0xc6, Mnemonic::Dec, 2, 5, AddressingMode::ZeroPage)),
        0xd6 => Some(op(0xd6, Mnemonic::Dec, 2, 6, AddressingMode::ZeroPage_X)),
        0xce => Some(op(0xce, Mnemonic::Dec, 3, 6, AddressingMode::Absolute)),
        0xde => Some(op(0xde, Mnemonic::Dec, 3, 7, AddressingMode::Absolute_X)),
        0xca => Some(op(0xca, Mnemonic::Dex, 1, 2, AddressingMode::NoneAddressing)),
        0x88 => Some(op(0x88, Mnemonic::Dey, 1, 2, AddressingMode::NoneAddressing)),
        _ => None,
    }
}

/// Looks up `code` in the opcode table.
pub fn lookup(code: u8) -> (r: Option<OpCode>)
    ensures
        r == opcode_table(code),
{
    match code {
        0x00 => Some(OpCode::new(0x00, Mnemonic::Brk, 1, 7, AddressingMode::NoneAddressing)),
        0xaa => Some(OpCode::new(0xaa, Mnemonic::Tax, 1, 2, AddressingMode::NoneAddressing)),
        0xe8 => Some(OpCode::new(0xe8, Mnemonic::Inx, 1, 2, AddressingMode::NoneAddressing)),
        0xa9 => Some(OpCode::new(0xa9, Mnemonic::Lda, 2, 2, AddressingMode::Immediate)),
        0xa5 => Some(OpCode::new(0xa5, Mnemonic::Lda, 2, 3, AddressingMode::ZeroPage)),
        0xb5 => Some(OpCode::new(0xb5, Mnemonic::Lda, 2, 4, AddressingMode::ZeroPage_X)),
        0xad => Some(OpCode::new(0xad, Mnemonic::Lda, 3, 4, AddressingMode::Absolute)),
        0xbd => Some(OpCode::new(0xbd, Mnemonic::Lda, 3, 4, AddressingMode::Absolute_X)),
        0xb9 => Some(OpCode::new(0xb9, Mnemonic::Lda, 3, 4, AddressingMode::Absolute_Y)),
        0xa1 => Some(OpCode::new(0xa1, Mnemonic::Lda, 2, 6, AddressingMode::Indirect_X)),
        0xb1 => Some(OpCode::new(0xb1, Mnemonic::Lda, 2, 5, AddressingMode::Indirect_Y)),
        0x69 => Some(OpCode::new(0x69, Mnemonic::Adc, 2, 2, AddressingMode::Immediate)),
        0x65 => Some(OpCode::new(0x65, Mnemonic::Adc, 2, 3, AddressingMode::ZeroPage)),
        0x75 => Some(OpCode::new(0x75, Mnemonic::Adc, 2, 4, AddressingMode::ZeroPage_X)),
        0x6d => Some(OpCode::new(0x6d, Mnemonic::Adc, 3, 4, AddressingMode::Absolute)),
        0x7d => Some(OpCode::new(0x7d, Mnemonic::Adc, 3, 4, AddressingMode::Absolute_X)),
        0x79 => Some(OpCode::new(0x79, Mnemonic::Adc, 3, 4, AddressingMode::Absolute_Y)),
        0x61 => Some(OpCode::new(0x61, Mnemonic::Adc, 2, 6, AddressingMode::Indirect_X)),
        0x71 => Some(OpCode::new(0x71, Mnemonic::Adc, 2, 5, AddressingMode::Indirect_Y)),
        0x29 => Some(OpCode::new(0x29, Mnemonic::And, 2, 2, AddressingMode::Immediate)),
        0x25 => Some(OpCode::new(0x25, Mnemonic::And, 2, 3, AddressingMode::ZeroPage)),
        0x35 => Some(OpCode::new(0x35, Mnemonic::And, 2, 4, AddressingMode::ZeroPage_X)),
        0x2d => Some(OpCode::new(0x2d, Mnemonic::And, 3, 4, AddressingMode::Absolute)),
        0x3d => Some(OpCode::new(0x3d, Mnemonic::And, 3, 4, AddressingMode::Absolute_X)),
        0x39 => Some(OpCode::new(0x39, Mnemonic::And, 3, 4, AddressingMode::Absolute_Y)),
        0x21 => Some(OpCode::new(0x21, Mnemonic::And, 2, 6, AddressingMode::Indirect_X)),
        0x31 => Some(OpCode::new(0x31, Mnemonic::And, 2, 5, AddressingMode::Indirect_Y)),
        0x49 => Some(OpCode::new(0x49, Mnemonic::Eor, 2, 2, AddressingMode::Immediate)),
        0x45 => Some(OpCode::new(0x45, Mnemonic::Eor, 2, 3, AddressingMode::ZeroPage)),
        0x55 => Some(OpCode::new(0x55, Mnemonic::Eor, 2, 4, AddressingMode::ZeroPage_X)),
        0x4d => Some(OpCode::new(0x4d, Mnemonic::Eor, 3, 4, AddressingMode::Absolute)),
        0x5d => Some(OpCode::new(0x5d, Mnemonic::Eor, 3, 4, AddressingMode::Absolute_X)),
        0x59 => Some(OpCode::new(0x59, Mnemonic::Eor, 3, 4, AddressingMode::Absolute_Y)),
        0x41 => Some(OpCode::new(0x41, Mnemonic::Eor, 2, 6, AddressingMode::Indirect_X)),
        0x51 => Some(OpCode::new(0x51, Mnemonic::Eor, 2, 5, AddressingMode::Indirect_Y)),
        0xc9 => Some(OpCode::new(0xc9, Mnemonic::Cmp, 2, 2, AddressingMode::Immediate)),
        0xc5 => Some(OpCode::new(0xc5, Mnemonic::Cmp, 2, 3, AddressingMode::ZeroPage)),
        0xd5 => Some(OpCode::new(0xd5, Mnemonic::Cmp, 2, 4, AddressingMode::ZeroPage_X)),
        0xcd => Some(OpCode::new(0xcd, Mnemonic::Cmp, 3, 4, AddressingMode::Absolute)),
        0xdd => Some(OpCode::new(0xdd, Mnemonic::Cmp, 3, 4, AddressingMode::Absolute_X)),
        0xd9 => Some(OpCode::new(0xd9, Mnemonic::Cmp, 3, 4, AddressingMode::Absolute_Y)),
        0xc1 => Some(OpCode::new(0xc1, Mnemonic::Cmp, 2, 6, AddressingMode::Indirect_X)),
        0xd1 => Some(OpCode::new(0xd1, Mnemonic::Cmp, 2, 5, AddressingMode::Indirect_Y)),
        0x85 => Some(OpCode::new(0x85, Mnemonic::Sta, 2, 3, AddressingMode::ZeroPage)),
        0x95 => Some(OpCode::new(0x95, Mnemonic::Sta, 2, 4, AddressingMode::ZeroPage_X)),
        0x8d => Some(OpCode::new(0x8d, Mnemonic::Sta, 3, 4, AddressingMode::Absolute)),
        0x9d => Some(OpCode::new(0x9d, Mnemonic::Sta, 3, 5, AddressingMode::Absolute_X)),
        0x99 => Some(OpCode::new(0x99, Mnemonic::Sta, 3, 5, AddressingMode::Absolute_Y)),
        0x81 => Some(OpCode::new(0x81, Mnemonic::Sta, 2, 6, AddressingMode::Indirect_X)),
        0x91 => Some(OpCode::new(0x91, Mnemonic::Sta, 2, 6, AddressingMode::Indirect_Y)),
        0x0a => Some(OpCode::new(0x0a, Mnemonic::Asl, 1, 2, AddressingMode::NoneAddressing)),
        0x06 => Some(OpCode::new(0x06, Mnemonic::Asl, 2, 5, AddressingMode::ZeroPage)),
        0x16 => Some(OpCode::new(0x16, Mnemonic::Asl, 2, 6, AddressingMode::ZeroPage_X)),
        0x0e => Some(OpCode::new(0x0e, Mnemonic::Asl, 3, 6, AddressingMode::Absolute)),
        0x1e => Some(OpCode::new(0x1e, Mnemonic::Asl, 3, 7, AddressingMode::Absolute_X)),
        0x90 => Some(OpCode::new(0x90, Mnemonic::Bcc, 2, 2, AddressingMode::NoneAddressing)),
        0xb0 => Some(OpCode::new(0xb0, Mnemonic::Bcs, 2, 2, AddressingMode::NoneAddressing)),
        0x50 => Some(OpCode::new(0x50, Mnemonic::Bvc, 2, 2, AddressingMode::NoneAddressing)),
        0x70 => Some(OpCode::new(0x70, Mnemonic::Bvs, 2, 2, AddressingMode::NoneAddressing)),
        0xf0 => Some(OpCode::new(0xf0, Mnemonic::Beq, 2, 2, AddressingMode::NoneAddressing)),
        0xd0 => Some(OpCode::new(0xd0, Mnemonic::Bne, 2, 2, AddressingMode::NoneAddressing)),
        0x30 => Some(OpCode::new(0x30, Mnemonic::Bmi, 2, 2, AddressingMode::NoneAddressing)),
        0x10 => Some(OpCode::new(0x10, Mnemonic::Bpl, 2, 2, AddressingMode::NoneAddressing)),
        0x24 => Some(OpCode::new(0x24, Mnemonic::Bit, 2, 3, AddressingMode::ZeroPage)),
        0x2c => Some(OpCode::new(0x2c, Mnemonic::Bit, 3, 4, AddressingMode::Absolute)),
        0x18 => Some(OpCode::new(0x18, Mnemonic::Clc, 1, 2, AddressingMode::NoneAddressing)),
        0xd8 => Some(OpCode::new(0xd8, Mnemonic::Cld, 1, 2, AddressingMode::NoneAddressing)),
        0x58 => Some(OpCode::new(0x58, Mnemonic::Cli, 1, 2, AddressingMode::NoneAddressing)),
        0xb8 => Some(OpCode::new(0xb8, Mnemonic::Clv, 1, 2, AddressingMode::NoneAddressing)),
        0xe0 => Some(OpCode::new(0xe0, Mnemonic::Cpx, 2, 2, AddressingMode::Immediate)),
        0xe4 => Some(OpCode::new(0xe4, Mnemonic::Cpx, 2, 3, AddressingMode::ZeroPage)),
        0xec => Some(OpCode::new(0xec, Mnemonic::Cpx, 3, 4, AddressingMode::Absolute)),
        0xc0 => Some(OpCode::new(0xc0, Mnemonic::Cpy, 2, 2, AddressingMode::Immediate)),
        0xc4 => Some(OpCode::new(0xc4, Mnemonic::Cpy, 2, 3, AddressingMode::ZeroPage)),
        0xcc => Some(OpCode::new(0xcc, Mnemonic::Cpy, 3, 4, AddressingMode::Absolute)),
        0xc6 => Some(OpCode::new(0xc6, Mnemonic::Dec, 2, 5, AddressingMode::ZeroPage)),
        0xd6 => Some(OpCode::new(0xd6, Mnemonic::Dec, 2, 6, AddressingMode::ZeroPage_X)),
        0xce => Some(OpCode::new(0xce, Mnemonic::Dec, 3, 6, AddressingMode::Absolute)),
        0xde => Some(OpCode::new(0xde, Mnemonic::Dec, 3, 7, AddressingMode::Absolute_X)),
        0xca => Some(OpCode::new(0xca, Mnemonic::Dex, 1, 2, AddressingMode::NoneAddressing)),
        0x88 => Some(OpCode::new(0x88, Mnemonic::Dey, 1, 2, AddressingMode::NoneAddressing)),
        _ => None,
    }
}

/// Every entry is filed under its own code, is one to three bytes long, and
/// an instruction takes its operand from memory exactly when it is longer
/// than one byte, except the branches, whose operand is the offset that
/// follows them.
pub proof fn lemma_table_well_formed(code: u8)
    ensures
        opcode_table(code) matches Some(o) ==> {
            &&& o.code == code
            &&& 1 <= o.len <= 3
            &&& (o.mode is NoneAddressing) == (o.len == 1 || is_branch(o.mnemonic))
            &&& (o.mode is Absolute || o.mode is Absolute_X || o.mode is Absolute_Y) <==> o.len == 3
        },
{
}

/// Whether `m` is one of the conditional branches.
pub open spec fn is_branch(m: Mnemonic) -> bool {
    ||| m is Bcc
    ||| m is Bcs
    ||| m is Bvc
    ||| m is Bvs
    ||| m is Beq
    ||| m is Bne
    ||| m is Bmi
    ||| m is Bpl
}

/// The addressing mode that bits 2-4 of an opcode name in the 6502's
/// encoding (for the ALU group, whose opcodes end in bits `01`).
pub open spec fn alu_mode(bbb: int) -> AddressingMode {
    if bbb == 0 {
        AddressingMode::Indirect_X
    } else if bbb == 1 {
        AddressingMode::ZeroPage
    } else if bbb == 2 {
        AddressingMode::Immediate
    } else if bbb == 3 {
        AddressingMode::Absolute
    } else if bbb == 4 {
        AddressingMode::Indirect_Y
    } else if bbb == 5 {
        AddressingMode::ZeroPage_X
    } else if bbb == 6 {
        AddressingMode::Absolute_Y
    } else {
        AddressingMode::Absolute_X
    }
}

/// The table follows the 6502's encoding `aaabbbcc` of its ALU group
/// (`cc == 01`): `aaa` names the operation (1 AND, 2 EOR, 3 ADC, 4 STA,
/// 5 LDA, 6 CMP; 0 ORA and 7 SBC are not run here), `bbb` the addressing
/// mode, and the instruction is three bytes long exactly when the mode
/// takes an absolute address. STA has no immediate form.
pub proof fn law_alu_encoding(code: u8)
    requires
        code % 4 == 1,
    ensures
        ({
            let aaa = code / 32;
            let bbb = (code / 4) % 8;
            &&& (aaa == 0 || aaa == 7 || (aaa == 4 && bbb == 2)) <==> opcode_table(code) is None
            &&& opcode_table(code) matches Some(o) ==> {
                &&& o.mode == alu_mode(bbb as int)
                &&& o.len == (if bbb == 3 || bbb == 6 || bbb == 7 { 3int } else { 2 })
                &&& aaa == 1 ==> o.mnemonic is And
                &&& aaa == 2 ==> o.mnemonic is Eor
                &&& aaa == 3 ==> o.mnemonic is Adc
                &&& aaa == 4 ==> o.mnemonic is Sta
                &&& aaa == 5 ==> o.mnemonic is Lda
                &&& aaa == 6 ==> o.mnemonic is Cmp
            }
        }),
{
}

/// The conditional branches are exactly the opcodes `xxy10000`; the read-
/// modify-write and compare opcodes follow the encoding too: `bbb` picks
/// zero page (1), absolute (3), zero page,X (5), absolute,X (7), and for the
/// compares immediate (0); ASL with `bbb == 2` works on the accumulator.
pub proof fn law_other_encodings(code: u8)
    ensures
        (code % 32 == 16) <==> (opcode_table(code) matches Some(o) && is_branch(o.mnemonic)),
        ({
            let o = opcode_table(code)->0;
            opcode_table(code) is Some && (o.mnemonic is Asl || o.mnemonic is Dec)
        }) ==> {
            let o = opcode_table(code)->0;
            &&& code % 4 == 2
            &&& (o.mnemonic is Asl) == (code / 32 == 0)
            &&& (code / 4) % 8 == 1 ==> o.mode is ZeroPage
            &&& (code / 4) % 8 == 2 ==> o.mode is NoneAddressing
            &&& (code / 4) % 8 == 3 ==> o.mode is Absolute
            &&& (code / 4) % 8 == 5 ==> o.mode is ZeroPage_X
            &&& (code / 4) % 8 == 7 ==> o.mode is Absolute_X
        },
        ({
            let o = opcode_table(code)->0;
            opcode_table(code) is Some && (o.mnemonic is Bit || o.mnemonic is Cpx || o.mnemonic is Cpy)
        }) ==> {
            let o = opcode_table(code)->0;
            &&& code % 4 == 0
            &&& (o.mnemonic is Bit) == (code / 32 == 1)
            &&& (o.mnemonic is Cpy) == (code / 32 == 6)
            &&& (o.mnemonic is Cpx) == (code / 32 == 7)
            &&& (code / 4) % 8 == 0 ==> o.mode is Immediate
            &&& (code / 4) % 8 == 1 ==> o.mode is ZeroPage
            &&& (code / 4) % 8 == 3 ==> o.mode is Absolute
        },
{
}

/// The branch entries: two bytes long, no addressing mode, and each filed
/// under its own opcode.
pub proof fn lemma_branch_entries(code: u8)
    ensures
        ({
            let o = opcode_table(code)->0;
            opcode_table(code) is Some && is_branch(o.mnemonic)
        }) ==> {
            let o = opcode_table(code)->0;
            &&& o.len == 2 && o.mode is NoneAddressing
            &&& (o.mnemonic is Bpl) == (code == 0x10)
            &&& (o.mnemonic is Bmi) == (code == 0x30)
            &&& (o.mnemonic is Bvc) == (code == 0x50)
            &&& (o.mnemonic is Bvs) == (code == 0x70)
            &&& (o.mnemonic is Bcc) == (code == 0x90)
            &&& (o.mnemonic is Bcs) == (code == 0xb0)
            &&& (o.mnemonic is Bne) == (code == 0xd0)
            &&& (o.mnemonic is Beq) == (code == 0xf0)
        },
{
}

/// The implied-operand entries are one byte long and name no addressing mode.
pub proof fn lemma_one_byte_entries(code: u8)
    ensures
        ({
            let o = opcode_table(code)->0;
            opcode_table(code) is Some && (o.mnemonic is Brk || o.mnemonic is Tax || o.mnemonic is Inx
                || o.mnemonic is Dex || o.mnemonic is Dey || o.mnemonic is Clc || o.mnemonic is Cld
                || o.mnemonic is Cli || o.mnemonic is Clv)
        }) ==> opcode_table(code)->0.len == 1 && opcode_table(code)->0.mode is NoneAddressing,
{
}

/// The one-byte instructions and their opcodes: BRK 0x00, CLC 0x18, CLI
/// 0x58, DEY 0x88, TAX 0xAA, CLV 0xB8, DEX 0xCA, CLD 0xD8, INX 0xE8, and
/// ASL on the accumulator 0x0A.
pub proof fn law_implied_opcodes(code: u8)
    ensures
        ({
            let o = opcode_table(code)->0;
            &&& (opcode_table(code) is Some && o.mnemonic is Brk) == (code == 0x00)
            &&& (opcode_table(code) is Some && o.mnemonic is Clc) == (code == 0x18)
            &&& (opcode_table(code) is Some && o.mnemonic is Cli) == (code == 0x58)
            &&& (opcode_table(code) is Some && o.mnemonic is Dey) == (code == 0x88)
            &&& (opcode_table(code) is Some && o.mnemonic is Tax) == (code == 0xaa)
            &&& (opcode_table(code) is Some && o.mnemonic is Clv) == (code == 0xb8)
            &&& (opcode_table(code) is Some && o.mnemonic is Dex) == (code == 0xca)
            &&& (opcode_table(code) is Some && o.mnemonic is Cld) == (code == 0xd8)
            &&& (opcode_table(code) is Some && o.mnemonic is Inx) == (code == 0xe8)
            &&& (opcode_table(code) is Some && o.mnemonic is Asl && o.mode is NoneAddressing) == (code
                == 0x0a)
        }),
{
}

} // verus!
