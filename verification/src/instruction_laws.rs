//! What each instruction does, stated over the bytes and registers of the
//! machine and proved of the model that the processor's contracts use.

use vstd::prelude::*;

use crate::cpu::{operand_address, step_outcome, zn, AddressingMode, CpuState, StepOutcome, MEMORY_SIZE};
use crate::flags::with_flag;
use crate::opcodes::{opcode_table, Mnemonic};

verus! {

/// The little-endian word in bytes `lo`, `hi`.
pub open spec fn word(lo: u8, hi: u8) -> int {
    lo + 256 * hi
}

/// How each addressing mode finds its operand, with the operand bytes at
/// `pc`: the zero-page modes wrap inside page zero, the absolute indexed
/// modes add the index to the whole word (the carry goes into the high
/// byte), and the indirect modes read a little-endian pointer from page zero.
pub proof fn law_operand_address(s: CpuState)
    ensures
        ({
            let pc = s.program_counter as int;
            let b0 = s.memory[pc];
            let b1 = s.memory[pc + 1];
            let x = s.register_x;
            let y = s.register_y;
            &&& operand_address(s, AddressingMode::Immediate) == pc
            &&& operand_address(s, AddressingMode::ZeroPage) == b0
            &&& operand_address(s, AddressingMode::ZeroPage_X) == (b0 + x) % 256
            &&& operand_address(s, AddressingMode::ZeroPage_Y) == (b0 + y) % 256
            &&& operand_address(s, AddressingMode::Absolute) == word(b0, b1)
            &&& operand_address(s, AddressingMode::Absolute_X) == (word(b0, b1) + x) % 0x10000
            &&& operand_address(s, AddressingMode::Absolute_Y) == (word(b0, b1) + y) % 0x10000
            &&& word(b0, b1) + x < 0x10000 ==> operand_address(s, AddressingMode::Absolute_X) == word(b0, b1) + x
            &&& word(b0, b1) + y < 0x10000 ==> operand_address(s, AddressingMode::Absolute_Y) == word(b0, b1) + y
            &&& operand_address(s, AddressingMode::Indirect_X) == word(
                s.memory[(b0 + x) % 256],
                s.memory[(b0 + x + 1) % 256],
            )
            &&& operand_address(s, AddressingMode::Indirect_Y) == (word(
                s.memory[b0 as int],
                s.memory[(b0 + 1) % 256],
            ) + y) % 0x10000
        }),
{
    let pc = s.program_counter as int;
    let b0 = s.memory[pc];
    let x = s.register_x;
    assert(((b0 + x) % 256 + 1) % 256 == (b0 + x + 1) % 256);
}

/// When an operand can be used: an immediate operand needs the program
/// counter inside memory; the zero-page and indirect modes read one operand
/// byte and need it inside memory; the absolute modes read two and need both
/// inside memory; and in every mode the operand's own address must be inside
/// memory. An implied operand (no addressing mode) never can.
pub proof fn law_operand_in_memory(s: CpuState, mode: AddressingMode)
    ensures
        crate::cpu::operand_ok(s, mode) == ({
            let pc = s.program_counter as int;
            &&& !(mode is NoneAddressing)
            &&& pc < 0xFFFF
            &&& (mode is Absolute || mode is Absolute_X || mode is Absolute_Y) ==> pc + 1 < 0xFFFF
            &&& operand_address(s, mode) < 0xFFFF
        }),
{
}

/// The state after fetching the opcode: the program counter past it.
pub open spec fn fetched(s: CpuState) -> CpuState {
    CpuState { program_counter: (s.program_counter + 1) as u16, ..s }
}

/// The address of the operand of the instruction at the program counter.
pub open spec fn effective_address(s: CpuState) -> int {
    operand_address(fetched(s), opcode_table(s.memory[s.program_counter as int])->0.mode) as int
}

/// The operand byte of the instruction at the program counter.
pub open spec fn operand_byte(s: CpuState) -> u8 {
    s.memory[effective_address(s)]
}

/// The entry of the opcode table for the byte at the program counter.
pub open spec fn current(s: CpuState) -> crate::opcodes::OpCode {
    opcode_table(s.memory[s.program_counter as int])->0
}

/// Whether the instruction at the program counter is known, its operand
/// lies in memory, and the next program counter does not overflow.
pub open spec fn runs(s: CpuState) -> bool {
    &&& s.program_counter < MEMORY_SIZE
    &&& opcode_table(s.memory[s.program_counter as int]) is Some
    &&& crate::cpu::operand_ok(fetched(s), current(s).mode)
    &&& s.program_counter + current(s).len <= 0xFFFF
}

/// Bits of the status byte.
pub open spec fn carry_bit(status: u8) -> bool { status & 0x01 != 0 }
pub open spec fn zero_bit(status: u8) -> bool { status & 0x02 != 0 }
pub open spec fn overflow_bit(status: u8) -> bool { status & 0x40 != 0 }
pub open spec fn negative_bit(status: u8) -> bool { status & 0x80 != 0 }

/// The zero and negative flags after a result `v`, the other flags kept.
proof fn lemma_zn_bits(st: u8, v: u8)
    ensures
        zero_bit(zn(st, v)) == (v == 0),
        negative_bit(zn(st, v)) == (v & 0x80 != 0),
        zn(st, v) & 0x7d == st & 0x7d,
        (v & 0x80 != 0) == (v >= 128),
{
    assert(zero_bit(zn(st, v)) == (v == 0) && negative_bit(zn(st, v)) == (v & 0x80 != 0) && zn(st, v)
        & 0x7d == st & 0x7d && (v & 0x80 != 0) == (v >= 128)) by (bit_vector);
}

/// LDA, AND, EOR: the accumulator receives the operand, the operand AND the
/// accumulator, or the operand XOR the accumulator; the zero and negative
/// flags follow the new accumulator; nothing else but the program counter,
/// which moves past the instruction, changes.
#[verifier::spinoff_prover]
pub proof fn law_load_and_logic(s: CpuState)
    requires
        s.program_counter < MEMORY_SIZE,
        opcode_table(s.memory[s.program_counter as int]) matches Some(op)
            && (op.mnemonic is Lda || op.mnemonic is And || op.mnemonic is Eor),
    ensures
        runs(s) ==> step_outcome(s) is Running,
        step_outcome(s) matches StepOutcome::Running(t) ==> {
            let m = operand_byte(s);
            let r = match current(s).mnemonic {
                Mnemonic::Lda => m,
                Mnemonic::And => s.register_a & m,
                _ => s.register_a ^ m,
            };
            &&& t.register_a == r
            &&& zero_bit(t.status) == (r == 0)
            &&& negative_bit(t.status) == (r & 0x80 != 0)
            &&& t.status & 0x7d == s.status & 0x7d
            &&& t.register_x == s.register_x && t.register_y == s.register_y
            &&& t.memory == s.memory && t.stack_pointer == s.stack_pointer
            &&& t.program_counter == s.program_counter + current(s).len
        },
{
    let m = operand_byte(s);
    let a = s.register_a;
    lemma_zn_bits(s.status, m);
    lemma_zn_bits(s.status, a & m);
    lemma_zn_bits(s.status, a ^ m);
    assert((m & a) == (a & m) && (m ^ a) == (a ^ m)) by (bit_vector);
}

/// The flag a conditional branch tests, by the 6502's encoding: the top two
/// bits of the opcode pick negative, overflow, carry or zero.
pub open spec fn branch_flag(code: u8) -> u8 {
    if code < 0x40 {
        0x80
    } else if code < 0x80 {
        0x40
    } else if code < 0xc0 {
        0x01
    } else {
        0x02
    }
}

/// Whether the branch with opcode `code` is taken: bit 5 of the opcode says
/// whether it branches on the flag set or on the flag clear.
pub open spec fn branch_taken(code: u8, status: u8) -> bool {
    (status & branch_flag(code) != 0) == (code & 0x20 != 0)
}

/// BPL, BMI, BVC, BVS, BCC, BCS, BNE, BEQ: when the tested flag has the
/// value the opcode names, the program counter moves from past the offset
/// byte by the offset read as a signed byte, wrapping at 64 KiB; otherwise
/// it moves past the offset byte. Nothing else changes. (A target equal to
/// the offset byte's own address counts as not moved, and the counter then
/// moves past the offset byte.)
#[verifier::spinoff_prover]
pub proof fn law_branches(s: CpuState)
    requires
        s.program_counter + 1 < MEMORY_SIZE,
        opcode_table(s.memory[s.program_counter as int]) matches Some(op) && crate::opcodes::is_branch(
            op.mnemonic,
        ),
    ensures
        ({
            let pc = s.program_counter as int;
            let code = s.memory[pc];
            let off = s.memory[pc + 1];
            let target = (pc + 2 + (if off >= 128 { off - 256 } else { off as int })) % 0x10000;
            let next = if branch_taken(code, s.status) && target != pc + 1 { target } else { pc + 2 };
            &&& code & 0x1f == 0x10
            &&& step_outcome(s) == StepOutcome::Running(CpuState { program_counter: next as u16, ..s })
        }),
{
    let code = s.memory[s.program_counter as int];
    let st = s.status;
    crate::opcodes::lemma_branch_entries(code);
    assert((code == 0x10 ==> code & 0x1f == 0x10 && branch_taken(code, st) == (st & 0x80 != 0x80))
        && (code == 0x30 ==> code & 0x1f == 0x10 && branch_taken(code, st) == (st & 0x80 == 0x80))
        && (code == 0x50 ==> code & 0x1f == 0x10 && branch_taken(code, st) == (st & 0x40 != 0x40))
        && (code == 0x70 ==> code & 0x1f == 0x10 && branch_taken(code, st) == (st & 0x40 == 0x40))
        && (code == 0x90 ==> code & 0x1f == 0x10 && branch_taken(code, st) == (st & 1 != 1))
        && (code == 0xb0 ==> code & 0x1f == 0x10 && branch_taken(code, st) == (st & 1 == 1))
        && (code == 0xd0 ==> code & 0x1f == 0x10 && branch_taken(code, st) == (st & 2 != 2))
        && (code == 0xf0 ==> code & 0x1f == 0x10 && branch_taken(code, st) == (st & 2 == 2)))
        by (bit_vector);
    match current(s).mnemonic {
        Mnemonic::Bpl => {},
        Mnemonic::Bmi => {},
        Mnemonic::Bvc => {},
        Mnemonic::Bvs => {},
        Mnemonic::Bcc => {},
        Mnemonic::Bcs => {},
        Mnemonic::Bne => {},
        _ => {},
    }
}

/// CMP, CPX, CPY: the carry tells whether the register (A, X or Y
/// respectively) is at least the operand, the zero flag whether they are
/// equal, the negative flag holds bit 7 of their difference; no register,
/// no byte of memory and no other flag changes.
#[verifier::spinoff_prover]
pub proof fn law_compare(s: CpuState)
    requires
        s.program_counter < MEMORY_SIZE,
        opcode_table(s.memory[s.program_counter as int]) matches Some(op)
            && (op.mnemonic is Cmp || op.mnemonic is Cpx || op.mnemonic is Cpy),
    ensures
        runs(s) ==> step_outcome(s) is Running,
        step_outcome(s) matches StepOutcome::Running(t) ==> {
            let m = operand_byte(s);
            let reg = match current(s).mnemonic {
                Mnemonic::Cmp => s.register_a,
                Mnemonic::Cpx => s.register_x,
                _ => s.register_y,
            };
            &&& carry_bit(t.status) == (reg >= m)
            &&& zero_bit(t.status) == (reg == m)
            &&& negative_bit(t.status) == ((reg - m + 256) % 256 >= 128)
            &&& t.status & 0x7c == s.status & 0x7c
            &&& t.register_a == s.register_a && t.register_x == s.register_x
            &&& t.register_y == s.register_y
            &&& t.memory == s.memory && t.stack_pointer == s.stack_pointer
            &&& t.program_counter == s.program_counter + current(s).len
        },
{
    let m = operand_byte(s);
    let op = current(s);
    let reg = match op.mnemonic {
        Mnemonic::Cmp => s.register_a,
        Mnemonic::Cpx => s.register_x,
        _ => s.register_y,
    };
    lemma_compare_status(s.status, reg, m);
}

/// The status byte after comparing `reg` with `m`.
proof fn lemma_compare_status(st: u8, reg: u8, m: u8)
    ensures
        ({
            let t = zn(with_flag(st, 1, reg >= m), crate::cpu::wrap8(reg - m));
            &&& carry_bit(t) == (reg >= m)
            &&& zero_bit(t) == (reg == m)
            &&& negative_bit(t) == ((reg - m + 256) % 256 >= 128)
            &&& t & 0x7c == st & 0x7c
        }),
{
    let b = reg >= m;
    let r = crate::cpu::wrap8(reg - m);
    assert(r == (reg - m + 256) % 256);
    assert(carry_bit(zn(with_flag(st, 1, b), r)) == b && zn(with_flag(st, 1, b), r) & 0x7c == st & 0x7c)
        by (bit_vector);
    lemma_zn_bits(with_flag(st, 1, b), r);
}

/// BIT: the zero flag tells whether A and the operand share no set bit, the
/// negative flag is bit 7 of the operand and the overflow flag its bit 6;
/// no register, no byte of memory and no other flag changes.
#[verifier::spinoff_prover]
pub proof fn law_bit_test(s: CpuState)
    requires
        s.program_counter < MEMORY_SIZE,
        opcode_table(s.memory[s.program_counter as int]) matches Some(op) && op.mnemonic is Bit,
    ensures
        runs(s) ==> step_outcome(s) is Running,
        step_outcome(s) matches StepOutcome::Running(t) ==> {
            let m = operand_byte(s);
            &&& zero_bit(t.status) == (s.register_a & m == 0)
            &&& negative_bit(t.status) == (m & 0x80 != 0)
            &&& overflow_bit(t.status) == (m & 0x40 != 0)
            &&& t.status & 0x3d == s.status & 0x3d
            &&& t.register_a == s.register_a && t.register_x == s.register_x
            &&& t.register_y == s.register_y
            &&& t.memory == s.memory && t.stack_pointer == s.stack_pointer
            &&& t.program_counter == s.program_counter + current(s).len
        },
{
    let m = operand_byte(s);
    let st = s.status;
    let z = s.register_a & m == 0;
    let n = m >= 128;
    let v = m & 0x40 != 0;
    assert((m >= 128) == (m & 0x80 != 0) && zero_bit(with_flag(with_flag(with_flag(st, 2, z), 0x80, n), 0x40, v)) == z
        && negative_bit(with_flag(with_flag(with_flag(st, 2, z), 0x80, n), 0x40, v)) == n
        && overflow_bit(with_flag(with_flag(with_flag(st, 2, z), 0x80, n), 0x40, v)) == v
        && with_flag(with_flag(with_flag(st, 2, z), 0x80, n), 0x40, v) & 0x3d == st & 0x3d) by (bit_vector);
}

/// ADC: the new accumulator and the carry out make up the sum of the old
/// accumulator, the operand and the carry in, as a 9-bit number; the
/// overflow flag is set exactly when the two addends have the same sign bit
/// and the result's sign bit differs from it; the zero and negative flags
/// follow the result; nothing else but the program counter changes.
#[verifier::spinoff_prover]
pub proof fn law_add_with_carry(s: CpuState)
    requires
        s.program_counter < MEMORY_SIZE,
        opcode_table(s.memory[s.program_counter as int]) matches Some(op) && op.mnemonic is Adc,
    ensures
        runs(s) ==> step_outcome(s) is Running,
        step_outcome(s) matches StepOutcome::Running(t) ==> {
            let m = operand_byte(s);
            let a = s.register_a;
            let c: int = if carry_bit(s.status) { 1 } else { 0 };
            let c_out: int = if carry_bit(t.status) { 1 } else { 0 };
            &&& t.register_a + 256 * c_out == a + m + c
            &&& overflow_bit(t.status) == ((a & 0x80) == (m & 0x80) && (t.register_a & 0x80) != (a & 0x80))
            &&& zero_bit(t.status) == (t.register_a == 0)
            &&& negative_bit(t.status) == (t.register_a & 0x80 != 0)
            &&& t.status & 0x3c == s.status & 0x3c
            &&& t.register_x == s.register_x && t.register_y == s.register_y
            &&& t.memory == s.memory && t.stack_pointer == s.stack_pointer
            &&& t.program_counter == s.program_counter + current(s).len
        },
{
    let m = operand_byte(s);
    lemma_adc_status(s.status, s.register_a, m);
}

/// The accumulator and status byte after ADC of `m`.
proof fn lemma_adc_status(st: u8, a: u8, m: u8)
    ensures
        ({
            let c: int = if st & 1 == 1 { 1 } else { 0 };
            let sum = a + m + c;
            let r = crate::cpu::wrap8(sum);
            let t = zn(
                with_flag(with_flag(st, 1, sum > 255), 0x40, crate::cpu::signed_overflow(a, m, c)),
                r,
            );
            &&& carry_bit(st) == (st & 1 == 1)
            &&& r + 256 * (if carry_bit(t) { 1int } else { 0 }) == sum
            &&& overflow_bit(t) == ((a & 0x80) == (m & 0x80) && (r & 0x80) != (a & 0x80))
            &&& zero_bit(t) == (r == 0)
            &&& negative_bit(t) == (r & 0x80 != 0)
            &&& t & 0x3c == st & 0x3c
        }),
{
    let c: int = if st & 1 == 1 { 1 } else { 0 };
    let sum = a + m + c;
    let r = crate::cpu::wrap8(sum);
    let b1 = sum > 255;
    let b2 = crate::cpu::signed_overflow(a, m, c);
    assert(carry_bit(st) == (st & 1 == 1) && carry_bit(zn(with_flag(with_flag(st, 1, b1), 0x40, b2), r)) == b1
        && overflow_bit(zn(with_flag(with_flag(st, 1, b1), 0x40, b2), r)) == b2
        && zn(with_flag(with_flag(st, 1, b1), 0x40, b2), r) & 0x3c == st & 0x3c) by (bit_vector);
    lemma_zn_bits(with_flag(with_flag(st, 1, b1), 0x40, b2), r);
    let cc: u8 = if st & 1 == 1 { 1 } else { 0 };
    assert(cc <= 1 ==> (((a as u16 + m as u16 + cc as u16) as u8 & 0x80) != (a & 0x80) && (a & 0x80) == (m & 0x80))
        == ((a < 128 && m < 128 && a + m + cc >= 128) || (a >= 128 && m >= 128 && a + m + cc < 384))
        && (a as u16 + m as u16 + cc as u16) as u8 == (a + m + cc) % 256) by (bit_vector);
}

/// STA: the accumulator is stored at the operand's address; no other byte,
/// no register and no flag changes.
#[verifier::spinoff_prover]
pub proof fn law_store(s: CpuState)
    requires
        s.program_counter < MEMORY_SIZE,
        opcode_table(s.memory[s.program_counter as int]) matches Some(op) && op.mnemonic is Sta,
    ensures
        runs(s) ==> step_outcome(s) is Running,
        step_outcome(s) matches StepOutcome::Running(t) ==> {
            &&& t.memory == s.memory.update(effective_address(s), s.register_a)
            &&& t.register_a == s.register_a && t.register_x == s.register_x
            &&& t.register_y == s.register_y && t.status == s.status
            &&& t.stack_pointer == s.stack_pointer
            &&& t.program_counter == s.program_counter + current(s).len
        },
{
}

/// ASL: the accumulator (opcode 0x0A) or the operand byte is doubled modulo
/// 256, its bit 7 going into the carry; the zero and negative flags follow
/// the result; nothing else but the program counter changes.
#[verifier::spinoff_prover]
pub proof fn law_shift_left(s: CpuState)
    requires
        s.program_counter < MEMORY_SIZE,
        opcode_table(s.memory[s.program_counter as int]) matches Some(op) && op.mnemonic is Asl,
    ensures
        runs(s) || current(s).mode is NoneAddressing ==> step_outcome(s) is Running,
        step_outcome(s) matches StepOutcome::Running(t) ==> {
            let v = if current(s).mode is NoneAddressing { s.register_a } else { operand_byte(s) };
            let r = (2 * v) % 256;
            &&& current(s).mode is NoneAddressing ==> t.register_a == r && t.memory == s.memory
            &&& !(current(s).mode is NoneAddressing) ==> t.register_a == s.register_a
                && t.memory == s.memory.update(effective_address(s), r as u8)
            &&& carry_bit(t.status) == (v & 0x80 != 0)
            &&& zero_bit(t.status) == (r == 0)
            &&& negative_bit(t.status) == (r >= 128)
            &&& t.status & 0x7c == s.status & 0x7c
            &&& t.register_x == s.register_x && t.register_y == s.register_y
            &&& t.stack_pointer == s.stack_pointer
            &&& t.program_counter == s.program_counter + current(s).len
        },
{
    let v = if current(s).mode is NoneAddressing { s.register_a } else { operand_byte(s) };
    lemma_shift_status(s.status, v);
}

/// The status byte after shifting `v` left.
proof fn lemma_shift_status(st: u8, v: u8)
    ensures
        ({
            let r = crate::cpu::wrap8(2 * v);
            let t = crate::cpu::shift_left_status(st, v);
            &&& r == (2 * v) % 256
            &&& carry_bit(t) == (v & 0x80 != 0)
            &&& zero_bit(t) == (r == 0)
            &&& negative_bit(t) == (r >= 128)
            &&& t & 0x7c == st & 0x7c
        }),
{
    let r = crate::cpu::wrap8(2 * v);
    let b = v >= 128;
    assert((v >= 128) == (v & 0x80 != 0) && carry_bit(zn(with_flag(st, 1, b), r)) == b && zn(with_flag(st, 1, b), r) & 0x7c == st & 0x7c)
        by (bit_vector);
    lemma_zn_bits(with_flag(st, 1, b), r);
}

/// DEC: the operand byte is decremented modulo 256; the zero and negative
/// flags follow the result; no register and no other flag changes.
#[verifier::spinoff_prover]
#[verifier::rlimit(40)]
pub proof fn law_decrement_memory(s: CpuState)
    requires
        s.program_counter < MEMORY_SIZE,
        opcode_table(s.memory[s.program_counter as int]) matches Some(op) && op.mnemonic is Dec,
    ensures
        runs(s) ==> step_outcome(s) is Running,
        step_outcome(s) matches StepOutcome::Running(t) ==> {
            let r = (operand_byte(s) + 255) % 256;
            &&& t.memory == s.memory.update(effective_address(s), r as u8)
            &&& zero_bit(t.status) == (r == 0)
            &&& negative_bit(t.status) == (r >= 128)
            &&& t.status & 0x7d == s.status & 0x7d
            &&& t.register_a == s.register_a && t.register_x == s.register_x
            &&& t.register_y == s.register_y && t.stack_pointer == s.stack_pointer
            &&& t.program_counter == s.program_counter + current(s).len
        },
{
    let r = crate::cpu::wrap8(operand_byte(s) - 1);
    assert(r == (operand_byte(s) + 255) % 256);
    lemma_zn_bits(s.status, r);
}

/// TAX: X receives A; the zero and negative flags follow it; nothing else
/// but the program counter, which moves past the one-byte instruction, changes.
#[verifier::spinoff_prover]
pub proof fn law_transfer_a_to_x(s: CpuState)
    requires
        s.program_counter < MEMORY_SIZE,
        opcode_table(s.memory[s.program_counter as int]) matches Some(op) && op.mnemonic is Tax,
    ensures
        step_outcome(s) matches StepOutcome::Running(t) && {
            let v: u8 = s.register_a;
            &&& t.register_x == v
            &&& t.register_y == s.register_y
            &&& zero_bit(t.status) == (v == 0)
            &&& negative_bit(t.status) == (v >= 128)
            &&& t.status & 0x7d == s.status & 0x7d
            &&& t.register_a == s.register_a && t.memory == s.memory
            &&& t.stack_pointer == s.stack_pointer
            &&& t.program_counter == s.program_counter + 1
        },
{
    let v: u8 = s.register_a;
    crate::opcodes::lemma_one_byte_entries(s.memory[s.program_counter as int]);
    lemma_zn_bits(s.status, v);
}

/// INX: X receives X + 1 modulo 256; the zero and negative flags follow
/// it; nothing else but the program counter changes.
#[verifier::spinoff_prover]
pub proof fn law_increment_x(s: CpuState)
    requires
        s.program_counter < MEMORY_SIZE,
        opcode_table(s.memory[s.program_counter as int]) matches Some(op) && op.mnemonic is Inx,
    ensures
        step_outcome(s) matches StepOutcome::Running(t) && {
            let v: u8 = ((s.register_x + 1) % 256) as u8;
            &&& t.register_x == v
            &&& t.register_y == s.register_y
            &&& zero_bit(t.status) == (v == 0)
            &&& negative_bit(t.status) == (v >= 128)
            &&& t.status & 0x7d == s.status & 0x7d
            &&& t.register_a == s.register_a && t.memory == s.memory
            &&& t.stack_pointer == s.stack_pointer
            &&& t.program_counter == s.program_counter + 1
        },
{
    let v: u8 = ((s.register_x + 1) % 256) as u8;
    crate::opcodes::lemma_one_byte_entries(s.memory[s.program_counter as int]);
    lemma_zn_bits(s.status, v);
}

/// DEX: X receives X - 1 modulo 256; the zero and negative flags follow
/// it; nothing else but the program counter changes.
#[verifier::spinoff_prover]
pub proof fn law_decrement_x(s: CpuState)
    requires
        s.program_counter < MEMORY_SIZE,
        opcode_table(s.memory[s.program_counter as int]) matches Some(op) && op.mnemonic is Dex,
    ensures
        step_outcome(s) matches StepOutcome::Running(t) && {
            let v: u8 = ((s.register_x + 255) % 256) as u8;
            &&& t.register_x == v
            &&& t.register_y == s.register_y
            &&& zero_bit(t.status) == (v == 0)
            &&& negative_bit(t.status) == (v >= 128)
            &&& t.status & 0x7d == s.status & 0x7d
            &&& t.register_a == s.register_a && t.memory == s.memory
            &&& t.stack_pointer == s.stack_pointer
            &&& t.program_counter == s.program_counter + 1
        },
{
    let v: u8 = ((s.register_x + 255) % 256) as u8;
    crate::opcodes::lemma_one_byte_entries(s.memory[s.program_counter as int]);
    lemma_zn_bits(s.status, v);
}

/// DEY: Y receives Y - 1 modulo 256; the zero and negative flags follow
/// it; nothing else but the program counter changes.
#[verifier::spinoff_prover]
pub proof fn law_decrement_y(s: CpuState)
    requires
        s.program_counter < MEMORY_SIZE,
        opcode_table(s.memory[s.program_counter as int]) matches Some(op) && op.mnemonic is Dey,
    ensures
        step_outcome(s) matches StepOutcome::Running(t) && {
            let v: u8 = ((s.register_y + 255) % 256) as u8;
            &&& t.register_y == v
            &&& t.register_x == s.register_x
            &&& zero_bit(t.status) == (v == 0)
            &&& negative_bit(t.status) == (v >= 128)
            &&& t.status & 0x7d == s.status & 0x7d
            &&& t.register_a == s.register_a && t.memory == s.memory
            &&& t.stack_pointer == s.stack_pointer
            &&& t.program_counter == s.program_counter + 1
        },
{
    let v: u8 = ((s.register_y + 255) % 256) as u8;
    crate::opcodes::lemma_one_byte_entries(s.memory[s.program_counter as int]);
    lemma_zn_bits(s.status, v);
}

/// The mask that CLC, CLD, CLI or CLV applies to the status byte.
pub open spec fn clear_mask(m: Mnemonic) -> u8 {
    match m {
        Mnemonic::Clc => 0xfe,
        Mnemonic::Cld => 0xf7,
        Mnemonic::Cli => 0xfb,
        _ => 0xbf,
    }
}

/// CLC, CLD, CLI, CLV clear the carry (bit 0), decimal (bit 3), interrupt
/// disable (bit 2) or overflow (bit 6) flag, and nothing else changes but
/// the program counter, which moves past the one-byte instruction.
#[verifier::spinoff_prover]
pub proof fn law_clear_flags(s: CpuState)
    requires
        s.program_counter < MEMORY_SIZE,
        opcode_table(s.memory[s.program_counter as int]) matches Some(op)
            && (op.mnemonic is Clc || op.mnemonic is Cld || op.mnemonic is Cli || op.mnemonic is Clv),
    ensures
        step_outcome(s) == StepOutcome::Running(
            CpuState {
                status: s.status & clear_mask(current(s).mnemonic),
                program_counter: (s.program_counter + 1) as u16,
                ..s
            },
        ),
{
    crate::opcodes::lemma_one_byte_entries(s.memory[s.program_counter as int]);
    let st = s.status;
    assert(with_flag(st, 1, false) == st & 0xfe && with_flag(st, 8, false) == st & 0xf7 && with_flag(st, 4,
        false) == st & 0xfb && with_flag(st, 0x40, false) == st & 0xbf) by (bit_vector);
    let f = fetched(s);
    let o = current(s);
    assert(o.len == 1);
    assert(crate::flags::CpuFlags::DECIMAL_MODE == 8 && crate::flags::CpuFlags::CARRY == 1
        && crate::flags::CpuFlags::INTERRUPT_DISABLE == 4 && crate::flags::CpuFlags::OVERFLOW == 0x40);
    match o.mnemonic {
        Mnemonic::Clc => {
            assert(crate::cpu::execute(f, o) == Some(crate::cpu::after_clear(f, crate::flags::CpuFlags::CARRY)));
            assert(step_outcome(s) == StepOutcome::Running(crate::cpu::after_clear(f, crate::flags::CpuFlags::CARRY)));
        },
        Mnemonic::Cld => {
            assert(crate::cpu::execute(f, o) == Some(crate::cpu::after_clear(f, crate::flags::CpuFlags::DECIMAL_MODE)));
            assert(step_outcome(s) == StepOutcome::Running(crate::cpu::after_clear(f, crate::flags::CpuFlags::DECIMAL_MODE)));
        },
        Mnemonic::Cli => {
            assert(crate::cpu::execute(f, o) == Some(crate::cpu::after_clear(f, crate::flags::CpuFlags::INTERRUPT_DISABLE)));
            assert(step_outcome(s) == StepOutcome::Running(crate::cpu::after_clear(f, crate::flags::CpuFlags::INTERRUPT_DISABLE)));
        },
        _ => {
            assert(crate::cpu::execute(f, o) == Some(crate::cpu::after_clear(f, crate::flags::CpuFlags::OVERFLOW)));
            assert(step_outcome(s) == StepOutcome::Running(crate::cpu::after_clear(f, crate::flags::CpuFlags::OVERFLOW)));
        },
    }
}

/// A zero byte (BRK) at the program counter stops the machine just past it,
/// and a byte the table does not know makes the cycle fail.
#[verifier::spinoff_prover]
pub proof fn law_halt_and_unknown(s: CpuState)
    requires
        s.program_counter < MEMORY_SIZE,
    ensures
        s.memory[s.program_counter as int] == 0 ==> step_outcome(s) == StepOutcome::Halted(
            CpuState { program_counter: (s.program_counter + 1) as u16, ..s },
        ),
        opcode_table(s.memory[s.program_counter as int]) is None ==> step_outcome(s) == StepOutcome::Fault,
{
}

} // verus!
