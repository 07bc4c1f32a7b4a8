use vstd::prelude::*;

use crate::cpu::{
    add_with_carry, after_compare, power_on, after_dex, after_inx, carry_in, final_state, halts, load_state,
    operand, read_u16, reset_state, run_for, signed_overflow, step_outcome, wrap8, write_byte, write_u16,
    zn, execute, AddressingMode, CpuState, StepOutcome, MEMORY_SIZE,
};
use crate::flags::{has_flag, with_flag, CpuFlags};
use crate::opcodes::OpCode;

verus! {

/// A byte written to memory is read back, and no other byte changes.
pub proof fn lemma_write_then_read(s: CpuState, addr: int, other: int, data: u8)
    requires
        s.memory.len() == MEMORY_SIZE,
        0 <= addr < MEMORY_SIZE,
        0 <= other < MEMORY_SIZE,
        other != addr,
    ensures
        write_byte(s, addr, data).memory[addr] == data,
        write_byte(s, addr, data).memory[other] == s.memory[other],
        write_byte(s, addr, data).memory.len() == MEMORY_SIZE,
{
}

/// A word is stored little-endian: its low byte at `pos`, its high byte at
/// `pos + 1`; it is read back, and no byte outside its two changes.
pub proof fn lemma_write_u16_then_read_u16(s: CpuState, pos: int, other: int, data: u16)
    requires
        s.memory.len() == MEMORY_SIZE,
        0 <= pos,
        pos + 1 < MEMORY_SIZE,
        0 <= other < MEMORY_SIZE,
        other != pos,
        other != pos + 1,
    ensures
        write_u16(s, pos, data).memory[pos] == data % 256,
        write_u16(s, pos, data).memory[pos + 1] == data / 256,
        read_u16(s, pos) == s.memory[pos] + 256 * s.memory[pos + 1],
        read_u16(write_u16(s, pos, data), pos) == data,
        write_u16(s, pos, data).memory[other] == s.memory[other],
{
}

/// A new processor has every byte of its 0xFFFF bytes of memory zero, A, X,
/// Y and the program counter zero, the stack pointer at 0xFD and the status
/// register at 0b0010_0100.
pub proof fn lemma_power_on()
    ensures
        power_on().memory.len() == 0xFFFF,
        forall|i: int| 0 <= i < 0xFFFF ==> #[trigger] power_on().memory[i] == 0,
        power_on().register_a == 0 && power_on().register_x == 0 && power_on().register_y == 0,
        power_on().program_counter == 0,
        power_on().stack_pointer == 0xfd,
        power_on().status == 0b0010_0100,
{
}

/// `load` copies the program in at 0x8000, stores 0x8000 little-endian in
/// the reset vector at 0xFFFC, and changes no register and no other byte;
/// the two bytes of the reset vector hold the vector even where a long
/// program reaches them.
pub proof fn lemma_load(s: CpuState, program: Seq<u8>)
    requires
        s.memory.len() == MEMORY_SIZE,
        0x8000 + program.len() <= 0xFFFF,
    ensures
        ({
            let t = load_state(s, program);
            &&& t.memory.len() == 0xFFFF
            &&& t.memory[0xFFFC] == 0x00
            &&& t.memory[0xFFFD] == 0x80
            &&& forall|i: int|
                0 <= i < program.len() && 0x8000 + i != 0xFFFC && 0x8000 + i != 0xFFFD
                    ==> #[trigger] t.memory[0x8000 + i] == program[i]
            &&& forall|a: int|
                0 <= a < 0xFFFF && !(0x8000 <= a < 0x8000 + program.len()) && a != 0xFFFC && a
                    != 0xFFFD ==> #[trigger] t.memory[a] == s.memory[a]
            &&& t.register_a == s.register_a && t.register_x == s.register_x
            &&& t.register_y == s.register_y && t.status == s.status
            &&& t.program_counter == s.program_counter && t.stack_pointer == s.stack_pointer
        }),
{
}

/// `reset` clears A, X and Y, puts 0b0010_0100 in the status register and
/// jumps to the little-endian address in bytes 0xFFFC and 0xFFFD; memory and
/// the stack pointer are kept.
pub proof fn lemma_reset(s: CpuState)
    ensures
        ({
            let t = reset_state(s);
            &&& t.program_counter == s.memory[0xFFFC] + 256 * s.memory[0xFFFD]
            &&& t.register_a == 0 && t.register_x == 0 && t.register_y == 0
            &&& t.status == 0b0010_0100
            &&& t.memory == s.memory && t.stack_pointer == s.stack_pointer
        }),
{
}

/// After `load` and `reset` the program counter is at 0x8000, the program's
/// first byte, A, X and Y are zero, the status register holds 0b0010_0100,
/// and every byte of the program below the reset vector is in memory.
pub proof fn lemma_load_then_reset(s: CpuState, program: Seq<u8>)
    requires
        s.memory.len() == MEMORY_SIZE,
        0x8000 + program.len() <= 0xFFFF,
    ensures
        ({
            let t = reset_state(load_state(s, program));
            &&& t.program_counter == 0x8000
            &&& t.register_a == 0 && t.register_x == 0 && t.register_y == 0
            &&& t.status == 0b0010_0100
            &&& t.stack_pointer == s.stack_pointer
            &&& forall|i: int|
                0 <= i < program.len() && 0x8000 + i < 0xFFFC ==> #[trigger] t.memory[0x8000 + i]
                    == program[i]
        }),
{
    lemma_load(s, program);
}

/// The zero flag tells whether the result is zero, the negative flag holds
/// its bit 7, and no other flag changes.
pub proof fn lemma_zero_negative(status: u8, v: u8)
    ensures
        has_flag(zn(status, v), CpuFlags::ZERO) == (v == 0),
        has_flag(zn(status, v), CpuFlags::NEGATIVE) == (v & 0x80 != 0),
        zn(status, v) & 0b0111_1101 == status & 0b0111_1101,
{
    assert((v >= 128) == (v & 0x80 != 0)
        && has_flag(with_flag(with_flag(status, 2, v == 0), 128, v >= 128), 2) == (v == 0)
        && has_flag(with_flag(with_flag(status, 2, v == 0), 128, v >= 128), 128) == (v >= 128)
        && with_flag(with_flag(status, 2, v == 0), 128, v >= 128) & 0b0111_1101 == status & 0b0111_1101)
        by (bit_vector);
}

/// ADC: the result and the carry out make up the unsigned sum of A, the
/// operand and the carry in; the overflow flag tells whether the signed sum
/// leaves the signed byte range.
pub proof fn lemma_add_with_carry(s: CpuState, m: u8)
    ensures
        ({
            let t = add_with_carry(s, m);
            let carry_out: int = if has_flag(t.status, CpuFlags::CARRY) { 1 } else { 0 };
            &&& t.register_a + 256 * carry_out == s.register_a + m + carry_in(s)
            &&& has_flag(t.status, CpuFlags::OVERFLOW) == signed_overflow(s.register_a, m, carry_in(s))
            &&& has_flag(t.status, CpuFlags::ZERO) == (t.register_a == 0)
            &&& t.register_x == s.register_x && t.register_y == s.register_y
            &&& t.memory == s.memory
        }),
{
    let c = carry_in(s);
    let sum = s.register_a + m + c;
    let st1 = with_flag(s.status, CpuFlags::CARRY, sum > 255);
    let st2 = with_flag(st1, CpuFlags::OVERFLOW, signed_overflow(s.register_a, m, c));
    let r = wrap8(sum);
    let st = s.status;
    let b1 = sum > 255;
    let b2 = signed_overflow(s.register_a, m, c);
    assert(has_flag(zn(with_flag(with_flag(st, 1, b1), 64, b2), r), 1) == b1
        && has_flag(zn(with_flag(with_flag(st, 1, b1), 64, b2), r), 64) == b2) by (bit_vector);
    lemma_zero_negative(st2, r);
}

/// CMP, CPX, CPY: the carry tells whether the register is at least the
/// operand, the zero flag whether they are equal.
pub proof fn lemma_compare(s: CpuState, mode: AddressingMode, register: u8)
    ensures
        has_flag(after_compare(s, mode, register).status, CpuFlags::CARRY) == (register >= operand(s, mode)),
        has_flag(after_compare(s, mode, register).status, CpuFlags::ZERO) == (register == operand(s, mode)),
        after_compare(s, mode, register).register_a == s.register_a,
        after_compare(s, mode, register).memory == s.memory,
{
    let m = operand(s, mode);
    let b = register >= m;
    let r = wrap8(register - m);
    let st = s.status;
    assert(has_flag(zn(with_flag(st, 1, b), r), 1) == b) by (bit_vector);
    lemma_zero_negative(with_flag(s.status, CpuFlags::CARRY, b), r);
}

/// DEX undoes INX and INX undoes DEX on the X register; DEY and INY would do
/// the same for Y.
pub proof fn lemma_increment_decrement(s: CpuState)
    ensures
        after_dex(after_inx(s)).register_x == s.register_x,
        after_inx(after_dex(s)).register_x == s.register_x,
        after_inx(s).register_x == wrap8(s.register_x + 1),
{
}

/// Running longer changes nothing once the machine has stopped: the result
/// does not depend on how many cycles were allowed.
pub proof fn lemma_run_for_monotone(s: CpuState, n: nat, m: nat)
    requires
        run_for(s, n) is Some,
        n <= m,
    ensures
        run_for(s, m) == run_for(s, n),
    decreases n,
{
    if n > 0 {
        match step_outcome(s) {
            StepOutcome::Running(t) => {
                lemma_run_for_monotone(t, (n - 1) as nat, (m - 1) as nat);
            },
            _ => {},
        }
    }
}

/// Whenever the machine stops within some number of cycles, `run` ends in
/// that very state.
pub proof fn lemma_final_state(s: CpuState, n: nat)
    requires
        run_for(s, n) is Some,
    ensures
        halts(s),
        final_state(s) == run_for(s, n)->0,
{
    let k = choose|fuel: nat| #[trigger] run_for(s, fuel) is Some;
    if k <= n {
        lemma_run_for_monotone(s, k, n);
    } else {
        lemma_run_for_monotone(s, n, k);
    }
}

/// A BRK at the program counter stops the machine just past it.
pub proof fn lemma_brk_halts(s: CpuState)
    requires
        s.memory.len() == MEMORY_SIZE,
        s.program_counter < MEMORY_SIZE,
        s.memory[s.program_counter as int] == 0,
    ensures
        halts(s),
        final_state(s) == (CpuState { program_counter: (s.program_counter + 1) as u16, ..s }),
{
    assert(run_for(s, 1) == Some(CpuState { program_counter: (s.program_counter + 1) as u16, ..s }));
    lemma_final_state(s, 1);
}

/// Only STA, DEC and ASL write memory; every other instruction leaves it
/// as it was.
pub proof fn lemma_only_stores_write(s: CpuState, op: OpCode)
    requires
        !(op.mnemonic is Sta || op.mnemonic is Dec || op.mnemonic is Asl),
    ensures
        execute(s, op) matches Some(t) ==> t.memory == s.memory,
{
}

/// No instruction this interpreter runs moves the stack pointer, so a run
/// ends with the stack pointer it started with.
pub proof fn lemma_run_keeps_stack_pointer(s: CpuState, n: nat)
    ensures
        run_for(s, n) matches Some(t) ==> t.stack_pointer == s.stack_pointer,
    decreases n,
{
    if n > 0 {
        match step_outcome(s) {
            StepOutcome::Running(t) => {
                lemma_run_keeps_stack_pointer(t, (n - 1) as nat);
            },
            _ => {},
        }
    }
}

/// A run goes cycle by cycle: after a cycle that executes an instruction the
/// machine stops in the same state as from the next state; a BRK cycle stops
/// it right there; a failing cycle means it never stops normally.
pub proof fn lemma_run_steps(s: CpuState)
    ensures
        step_outcome(s) matches StepOutcome::Running(t) ==> (halts(s) <==> halts(t)) && (halts(s)
            ==> final_state(s) == final_state(t)),
        step_outcome(s) matches StepOutcome::Halted(t) ==> halts(s) && final_state(s) == t,
        step_outcome(s) is Fault ==> !halts(s),
{
    match step_outcome(s) {
        StepOutcome::Running(t) => {
            if halts(s) {
                let n = choose|fuel: nat| #[trigger] run_for(s, fuel) is Some;
                lemma_final_state(s, n);
                assert(run_for(t, (n - 1) as nat) is Some);
                lemma_final_state(t, (n - 1) as nat);
            }
            if halts(t) {
                let k = choose|fuel: nat| #[trigger] run_for(t, fuel) is Some;
                assert(run_for(s, k + 1) == run_for(t, k));
                lemma_final_state(s, k + 1);
            }
        },
        StepOutcome::Halted(t) => {
            assert(run_for(s, 1) == Some(t));
            lemma_final_state(s, 1);
        },
        StepOutcome::Fault => {
            assert forall|n: nat| !(#[trigger] run_for(s, n) is Some) by {}
        },
    }
}

} // verus!
