use vstd::prelude::*;

use crate::flags::{has_flag, with_flag, CpuFlags};
use crate::opcodes::{lookup, opcode_table, Mnemonic, OpCode, lemma_table_well_formed};

verus! {

/// Number of addressable bytes of memory; the byte at `0xFFFF` is outside it.
pub const MEMORY_SIZE: usize = 0xFFFF;

/// Where the address of the first instruction is stored (little-endian).
pub const RESET_VECTOR: u16 = 0xFFFC;

/// Where `load` places a program.
pub const PROGRAM_START: u16 = 0x8000;

/// The status register's value after power-on or reset.
pub const STATUS_RESET: u8 = 0b0010_0100;

/// The stack pointer's value at power-on.
pub const STACK_RESET: u8 = 0xfd;

/// How an instruction finds its operand.
#[derive(Debug, Clone, Copy)]
#[allow(non_camel_case_types)]
pub enum AddressingMode {
    Immediate,
    ZeroPage,
    ZeroPage_X,
    ZeroPage_Y,
    Absolute,
    Absolute_X,
    Absolute_Y,
    Indirect_X,
    Indirect_Y,
    NoneAddressing,
}

/// The processor: registers, status flags and its own 64 KiB (less one byte)
/// of memory.
pub struct CPU {
    pub register_a: u8,
    pub register_x: u8,
    pub register_y: u8,
    pub status: CpuFlags,
    pub program_counter: u16,
    pub stack_pointer: u8,
    memory: [u8; 0xFFFF],
}

/// The mathematical model of a `CPU`: its registers and its memory as a
/// sequence of `MEMORY_SIZE` bytes.
pub ghost struct CpuState {
    pub register_a: u8,
    pub register_x: u8,
    pub register_y: u8,
    pub status: u8,
    pub program_counter: u16,
    pub stack_pointer: u8,
    pub memory: Seq<u8>,
}

impl View for CPU {
    type V = CpuState;

    closed spec fn view(&self) -> CpuState {
        CpuState {
            register_a: self.register_a,
            register_x: self.register_x,
            register_y: self.register_y,
            status: self.status@,
            program_counter: self.program_counter,
            stack_pointer: self.stack_pointer,
            memory: self.memory@,
        }
    }
}

// ---------------------------------------------------------------------------
// The model: memory
// ---------------------------------------------------------------------------

/// `v` reduced to a byte, as wrapping arithmetic does.
pub open spec fn wrap8(v: int) -> u8 {
    (v % 256) as u8
}

/// `v` reduced to a 16-bit word, as wrapping arithmetic does.
pub open spec fn wrap16(v: int) -> u16 {
    (v % 0x10000) as u16
}

/// The little-endian word stored at `pos` and `pos + 1`.
pub open spec fn read_u16(s: CpuState, pos: int) -> u16 {
    (s.memory[pos] + 256 * s.memory[pos + 1]) as u16
}

/// `s` with the byte at `addr` replaced by `data`.
pub open spec fn write_byte(s: CpuState, addr: int, data: u8) -> CpuState {
    CpuState { memory: s.memory.update(addr, data), ..s }
}

/// `s` with the word `data` stored little-endian at `pos` and `pos + 1`.
pub open spec fn write_u16(s: CpuState, pos: int, data: u16) -> CpuState {
    write_byte(write_byte(s, pos, (data % 256) as u8), pos + 1, (data / 256) as u8)
}

/// The state of a freshly created processor.
pub open spec fn power_on() -> CpuState {
    CpuState {
        register_a: 0,
        register_x: 0,
        register_y: 0,
        status: STATUS_RESET,
        program_counter: 0,
        stack_pointer: STACK_RESET,
        memory: Seq::new(MEMORY_SIZE as nat, |i: int| 0u8),
    }
}


// ---------------------------------------------------------------------------
// The model: operands
// ---------------------------------------------------------------------------

/// `v` read as a two's-complement signed byte.
pub open spec fn signed8(v: u8) -> int {
    if v >= 128 {
        v - 256
    } else {
        v as int
    }
}

/// Whether `mode` takes a two-byte address after the opcode.
pub open spec fn is_absolute(mode: AddressingMode) -> bool {
    mode is Absolute || mode is Absolute_X || mode is Absolute_Y
}

/// The address of the operand of an instruction whose operand bytes start at
/// the program counter.
pub open spec fn operand_address(s: CpuState, mode: AddressingMode) -> u16 {
    let pc = s.program_counter as int;
    match mode {
        AddressingMode::Immediate => s.program_counter,
        AddressingMode::ZeroPage => s.memory[pc] as u16,
        AddressingMode::Absolute => read_u16(s, pc),
        AddressingMode::ZeroPage_X => wrap8(s.memory[pc] + s.register_x) as u16,
        AddressingMode::ZeroPage_Y => wrap8(s.memory[pc] + s.register_y) as u16,
        AddressingMode::Absolute_X => wrap16(read_u16(s, pc) + s.register_x),
        AddressingMode::Absolute_Y => wrap16(read_u16(s, pc) + s.register_y),
        AddressingMode::Indirect_X => {
            let ptr = wrap8(s.memory[pc] + s.register_x);
            (s.memory[ptr as int] + 256 * s.memory[wrap8(ptr + 1) as int]) as u16
        },
        AddressingMode::Indirect_Y => {
            let base = s.memory[pc];
            wrap16(
                s.memory[base as int] + 256 * s.memory[wrap8(base + 1) as int]
                    + s.register_y,
            )
        },
        AddressingMode::NoneAddressing => 0,
    }
}

/// Whether the operand address can be computed: the mode names one, and the
/// bytes read to find it lie in memory (an immediate operand's address is
/// the program counter itself, found without reading memory).
pub open spec fn address_ok(s: CpuState, mode: AddressingMode) -> bool {
    &&& !(mode is NoneAddressing)
    &&& !(mode is Immediate) ==> s.program_counter < MEMORY_SIZE
    &&& is_absolute(mode) ==> s.program_counter + 1 < MEMORY_SIZE
}

/// Whether the operand can be read or written: its address can be computed
/// and lies in memory.
pub open spec fn operand_ok(s: CpuState, mode: AddressingMode) -> bool {
    address_ok(s, mode) && operand_address(s, mode) < MEMORY_SIZE
}

/// The operand byte.
pub open spec fn operand(s: CpuState, mode: AddressingMode) -> u8 {
    s.memory[operand_address(s, mode) as int]
}

// ---------------------------------------------------------------------------
// The model: instructions
// ---------------------------------------------------------------------------

/// `status` with the zero flag telling whether `v` is zero and the negative
/// flag holding bit 7 of `v`.
pub open spec fn zn(status: u8, v: u8) -> u8 {
    with_flag(with_flag(status, CpuFlags::ZERO, v == 0), CpuFlags::NEGATIVE, v >= 128)
}

/// `s` with `status` in place of its status register.
pub open spec fn with_status(s: CpuState, status: u8) -> CpuState {
    CpuState { status, ..s }
}

/// `s` with `v` in the accumulator and the zero and negative flags set from it.
pub open spec fn with_a(s: CpuState, v: u8) -> CpuState {
    CpuState { register_a: v, status: zn(s.status, v), ..s }
}

/// `s` with `v` in X and the zero and negative flags set from it.
pub open spec fn with_x(s: CpuState, v: u8) -> CpuState {
    CpuState { register_x: v, status: zn(s.status, v), ..s }
}

/// `s` with `v` in Y and the zero and negative flags set from it.
pub open spec fn with_y(s: CpuState, v: u8) -> CpuState {
    CpuState { register_y: v, status: zn(s.status, v), ..s }
}

/// The carry flag as a number.
pub open spec fn carry_in(s: CpuState) -> int {
    if has_flag(s.status, CpuFlags::CARRY) {
        1
    } else {
        0
    }
}

/// Whether `a + m + c` leaves the signed byte range when `a` and `m` are read
/// as signed bytes.
pub open spec fn signed_overflow(a: u8, m: u8, c: int) -> bool {
    let v = signed8(a) + signed8(m) + c;
    v < -128 || v > 127
}

/// Adds `m` and the carry to the accumulator: the accumulator receives the
/// low byte of the sum, the carry its ninth bit, the overflow flag whether
/// the signed sum overflowed, and the zero and negative flags follow the
/// result.
pub open spec fn add_with_carry(s: CpuState, m: u8) -> CpuState {
    let c = carry_in(s);
    let sum = s.register_a + m + c;
    let status = with_flag(
        with_flag(s.status, CpuFlags::CARRY, sum > 255),
        CpuFlags::OVERFLOW,
        signed_overflow(s.register_a, m, c),
    );
    with_a(with_status(s, status), wrap8(sum))
}

/// Shifts `m` left by one: the carry receives bit 7, and the zero and
/// negative flags follow the result.
pub open spec fn shift_left_status(status: u8, m: u8) -> u8 {
    zn(with_flag(status, CpuFlags::CARRY, m >= 128), wrap8(2 * m))
}

/// ADC
pub open spec fn after_adc(s: CpuState, mode: AddressingMode) -> CpuState {
    add_with_carry(s, operand(s, mode))
}

/// AND
pub open spec fn after_and(s: CpuState, mode: AddressingMode) -> CpuState {
    with_a(s, operand(s, mode) & s.register_a)
}

/// EOR
pub open spec fn after_eor(s: CpuState, mode: AddressingMode) -> CpuState {
    with_a(s, operand(s, mode) ^ s.register_a)
}

/// LDA
pub open spec fn after_lda(s: CpuState, mode: AddressingMode) -> CpuState {
    with_a(s, operand(s, mode))
}

/// STA
pub open spec fn after_sta(s: CpuState, mode: AddressingMode) -> CpuState {
    write_byte(s, operand_address(s, mode) as int, s.register_a)
}

/// ASL on the accumulator.
pub open spec fn after_asl_accumulator(s: CpuState) -> CpuState {
    CpuState {
        register_a: wrap8(2 * s.register_a),
        status: shift_left_status(s.status, s.register_a),
        ..s
    }
}

/// ASL on memory.
pub open spec fn after_asl(s: CpuState, mode: AddressingMode) -> CpuState {
    let m = operand(s, mode);
    with_status(
        write_byte(s, operand_address(s, mode) as int, wrap8(2 * m)),
        shift_left_status(s.status, m),
    )
}

/// Where a taken branch goes: past the offset byte, moved by the offset read
/// as a signed byte.
pub open spec fn branch_target(s: CpuState) -> u16 {
    wrap16(s.program_counter + 1 + signed8(s.memory[s.program_counter as int]))
}

/// A conditional branch.
pub open spec fn after_branch(s: CpuState, condition: bool) -> CpuState {
    if condition {
        CpuState { program_counter: branch_target(s), ..s }
    } else {
        s
    }
}

/// BIT: the zero flag tells whether A and the operand share no bit; the
/// negative and overflow flags receive bits 7 and 6 of the operand.
pub open spec fn after_bit(s: CpuState, mode: AddressingMode) -> CpuState {
    let m = operand(s, mode);
    with_status(
        s,
        with_flag(
            with_flag(with_flag(s.status, CpuFlags::ZERO, s.register_a & m == 0), CpuFlags::NEGATIVE, m >= 128),
            CpuFlags::OVERFLOW,
            m & 0b0100_0000 != 0,
        ),
    )
}

/// CMP, CPX and CPY: the carry tells whether `register >= m`, and the zero
/// and negative flags follow `register - m`.
pub open spec fn after_compare(s: CpuState, mode: AddressingMode, register: u8) -> CpuState {
    let m = operand(s, mode);
    with_status(s, zn(with_flag(s.status, CpuFlags::CARRY, register >= m), wrap8(register - m)))
}

/// DEC
pub open spec fn after_dec(s: CpuState, mode: AddressingMode) -> CpuState {
    let r = wrap8(operand(s, mode) - 1);
    with_status(write_byte(s, operand_address(s, mode) as int, r), zn(s.status, r))
}

/// DEX
pub open spec fn after_dex(s: CpuState) -> CpuState {
    with_x(s, wrap8(s.register_x - 1))
}

/// DEY
pub open spec fn after_dey(s: CpuState) -> CpuState {
    with_y(s, wrap8(s.register_y - 1))
}

/// TAX
pub open spec fn after_tax(s: CpuState) -> CpuState {
    with_x(s, s.register_a)
}

/// INX
pub open spec fn after_inx(s: CpuState) -> CpuState {
    with_x(s, wrap8(s.register_x + 1))
}

/// CLC, CLD, CLI and CLV.
pub open spec fn after_clear(s: CpuState, mask: u8) -> CpuState {
    with_status(s, with_flag(s.status, mask, false))
}


// ---------------------------------------------------------------------------
// The model: loading and running programs
// ---------------------------------------------------------------------------

/// `mem` with `program` copied in from `PROGRAM_START` on.
pub open spec fn place_program(mem: Seq<u8>, program: Seq<u8>) -> Seq<u8> {
    Seq::new(
        mem.len(),
        |i: int|
            if PROGRAM_START <= i < PROGRAM_START + program.len() {
                program[i - PROGRAM_START]
            } else {
                mem[i]
            },
    )
}

/// `s` after `load`: the program copied in at `PROGRAM_START`, then the reset
/// vector pointed at it.
pub open spec fn load_state(s: CpuState, program: Seq<u8>) -> CpuState {
    write_u16(
        CpuState { memory: place_program(s.memory, program), ..s },
        RESET_VECTOR as int,
        PROGRAM_START,
    )
}

/// `s` after `reset`: A, X and Y cleared, the status register at its reset
/// value and the program counter at the address the reset vector holds.
pub open spec fn reset_state(s: CpuState) -> CpuState {
    CpuState {
        register_a: 0,
        register_x: 0,
        register_y: 0,
        status: STATUS_RESET,
        program_counter: read_u16(s, RESET_VECTOR as int),
        ..s
    }
}

/// Whether a branch on `condition` can read its offset.
pub open spec fn branch_ok(s: CpuState, condition: bool) -> bool {
    condition ==> s.program_counter < MEMORY_SIZE
}

/// `Some(t)` where `t` is the state after the instruction `op` executes in `s`
/// (whose program counter is at the operand bytes), and `None` where it
/// would touch a byte outside memory or is not one this interpreter runs.
pub open spec fn execute(s: CpuState, op: OpCode) -> Option<CpuState> {
    let mode = op.mode;
    let operand_step = |t: CpuState| if operand_ok(s, mode) { Some(t) } else { None };
    let branch_step = |c: bool| if branch_ok(s, c) { Some(after_branch(s, c)) } else { None };
    match op.mnemonic {
        Mnemonic::Adc => operand_step(after_adc(s, mode)),
        Mnemonic::And => operand_step(after_and(s, mode)),
        Mnemonic::Eor => operand_step(after_eor(s, mode)),
        Mnemonic::Lda => operand_step(after_lda(s, mode)),
        Mnemonic::Sta => operand_step(after_sta(s, mode)),
        Mnemonic::Bit => operand_step(after_bit(s, mode)),
        Mnemonic::Dec => operand_step(after_dec(s, mode)),
        Mnemonic::Cmp => operand_step(after_compare(s, mode, s.register_a)),
        Mnemonic::Cpx => operand_step(after_compare(s, mode, s.register_x)),
        Mnemonic::Cpy => operand_step(after_compare(s, mode, s.register_y)),
        Mnemonic::Asl => if mode is NoneAddressing {
            Some(after_asl_accumulator(s))
        } else {
            operand_step(after_asl(s, mode))
        },
        Mnemonic::Bcc => branch_step(!has_flag(s.status, CpuFlags::CARRY)),
        Mnemonic::Bcs => branch_step(has_flag(s.status, CpuFlags::CARRY)),
        Mnemonic::Bvc => branch_step(!has_flag(s.status, CpuFlags::OVERFLOW)),
        Mnemonic::Bvs => branch_step(has_flag(s.status, CpuFlags::OVERFLOW)),
        Mnemonic::Beq => branch_step(has_flag(s.status, CpuFlags::ZERO)),
        Mnemonic::Bne => branch_step(!has_flag(s.status, CpuFlags::ZERO)),
        Mnemonic::Bmi => branch_step(has_flag(s.status, CpuFlags::NEGATIVE)),
        Mnemonic::Bpl => branch_step(!has_flag(s.status, CpuFlags::NEGATIVE)),
        Mnemonic::Clc => Some(after_clear(s, CpuFlags::CARRY)),
        Mnemonic::Cld => Some(after_clear(s, CpuFlags::DECIMAL_MODE)),
        Mnemonic::Cli => Some(after_clear(s, CpuFlags::INTERRUPT_DISABLE)),
        Mnemonic::Clv => Some(after_clear(s, CpuFlags::OVERFLOW)),
        Mnemonic::Dex => Some(after_dex(s)),
        Mnemonic::Dey => Some(after_dey(s)),
        Mnemonic::Tax => Some(after_tax(s)),
        Mnemonic::Inx => Some(after_inx(s)),
        Mnemonic::Brk => None,
    }
}

/// What one fetch-and-execute cycle does.
pub ghost enum StepOutcome {
    /// A BRK was fetched; the machine stops in this state.
    Halted(CpuState),
    /// An instruction executed; the machine goes on from this state.
    Running(CpuState),
    /// The cycle would fail: the opcode is unknown, or a byte it reads or
    /// writes, or the next program counter, lies outside memory.
    Fault,
}

/// One cycle: fetch the opcode at the program counter and move past it; stop
/// on BRK; otherwise execute the instruction and, unless it moved the
/// program counter itself, move past its operand bytes.
pub open spec fn step_outcome(s: CpuState) -> StepOutcome {
    if s.program_counter >= MEMORY_SIZE {
        StepOutcome::Fault
    } else {
        let code = s.memory[s.program_counter as int];
        let fetched = CpuState { program_counter: (s.program_counter + 1) as u16, ..s };
        match opcode_table(code) {
            None => StepOutcome::Fault,
            Some(op) => if op.mnemonic is Brk {
                StepOutcome::Halted(fetched)
            } else {
                match execute(fetched, op) {
                    None => StepOutcome::Fault,
                    Some(t) => if t.program_counter == fetched.program_counter {
                        if fetched.program_counter + op.len - 1 > u16::MAX {
                            StepOutcome::Fault
                        } else {
                            StepOutcome::Running(
                                CpuState {
                                    program_counter: (fetched.program_counter + op.len - 1) as u16,
                                    ..t
                                },
                            )
                        }
                    } else {
                        StepOutcome::Running(t)
                    },
                }
            },
        }
    }
}

/// `Some(t)` when the machine started in `s` stops on a BRK in state `t`
/// within `fuel` cycles, none of them failing; `None` otherwise.
pub open spec fn run_for(s: CpuState, fuel: nat) -> Option<CpuState>
    decreases fuel,
{
    if fuel == 0 {
        None
    } else {
        match step_outcome(s) {
            StepOutcome::Halted(t) => Some(t),
            StepOutcome::Running(t) => run_for(t, (fuel - 1) as nat),
            StepOutcome::Fault => None,
        }
    }
}

/// Whether the machine started in `s` stops on a BRK, no cycle failing.
pub open spec fn halts(s: CpuState) -> bool {
    exists|fuel: nat| #[trigger] run_for(s, fuel) is Some
}

/// The state in which the machine started in `s` stops, when it does.
pub open spec fn final_state(s: CpuState) -> CpuState {
    run_for(s, choose|fuel: nat| #[trigger] run_for(s, fuel) is Some)->0
}

impl CPU {
    /// A processor with zeroed registers and memory, the stack pointer at
    /// `0xfd` and the status register at `0b100100`.
    pub fn new() -> (cpu: CPU)
        ensures
            cpu@ == power_on(),
    {
        let cpu = CPU {
            register_a: 0,
            register_x: 0,
            register_y: 0,
            status: CpuFlags::from_bits_truncate(0b100100),
            program_counter: 0,
            stack_pointer: STACK_RESET,
            memory: [0; 0xFFFF],
        };
        assert(cpu@.memory =~= power_on().memory);
        cpu
    }

    /// The byte at `addr`.
    pub fn mem_read(&self, addr: u16) -> (data: u8)
        requires
            addr < MEMORY_SIZE,
        ensures
            data == self@.memory[addr as int],
    {
        self.memory[addr as usize]
    }

    /// Stores `data` at `addr`.
    pub fn mem_write(&mut self, addr: u16, data: u8)
        requires
            addr < MEMORY_SIZE,
        ensures
            final(self)@ == write_byte(old(self)@, addr as int, data),
    {
        self.memory[addr as usize] = data;
    }

    /// The little-endian word at `pos` and `pos + 1`.
    pub fn mem_read_u16(&self, pos: u16) -> (data: u16)
        requires
            pos + 1 < MEMORY_SIZE,
        ensures
            data == read_u16(self@, pos as int),
    {
        let lo = self.mem_read(pos) as u16;
        let hi = self.mem_read(pos + 1) as u16;
        assert((hi << 8) | lo == lo + 256 * hi) by (bit_vector)
            requires
                lo < 256,
                hi < 256,
        ;
        (hi << 8) | (lo as u16)
    }

    /// Stores the word `data` little-endian at `pos` and `pos + 1`.
    pub fn mem_write_u16(&mut self, pos: u16, data: u16)
        requires
            pos + 1 < MEMORY_SIZE,
        ensures
            final(self)@ == write_u16(old(self)@, pos as int, data),
    {
        let hi = (data >> 8) as u8;
        let lo = (data & 0xff) as u8;
        assert(hi == data / 256 && lo == data % 256) by (bit_vector)
            requires
                hi == (data >> 8) as u8,
                lo == (data & 0xff) as u8,
        ;
        self.mem_write(pos, lo);
        self.mem_write(pos + 1, hi);
    }
    /// The address of the current instruction's operand under `mode`.
    #[verifier::spinoff_prover]
    #[verifier::rlimit(40)]
    fn get_operand_address(&self, mode: &AddressingMode) -> (addr: u16)
        requires
            address_ok(self@, *mode),
        ensures
            addr == operand_address(self@, *mode),
    {
        match mode {
            AddressingMode::Immediate => self.program_counter,
            AddressingMode::ZeroPage => self.mem_read(self.program_counter) as u16,
            AddressingMode::Absolute => self.mem_read_u16(self.program_counter),
            AddressingMode::ZeroPage_X => {
                let pos = self.mem_read(self.program_counter);
                let addr = pos.wrapping_add(self.register_x) as u16;
                addr
            },
            AddressingMode::ZeroPage_Y => {
                let pos = self.mem_read(self.program_counter);
                let addr = pos.wrapping_add(self.register_y) as u16;
                addr
            },
            AddressingMode::Absolute_X => {
                let base = self.mem_read_u16(self.program_counter);
                let addr = base.wrapping_add(self.register_x as u16);
                addr
            },
            AddressingMode::Absolute_Y => {
                let base = self.mem_read_u16(self.program_counter);
                let addr = base.wrapping_add(self.register_y as u16);
                addr
            },
            AddressingMode::Indirect_X => {
                let base = self.mem_read(self.program_counter);
                let ptr: u8 = base.wrapping_add(self.register_x);
                let lo = self.mem_read(ptr as u16);
                let hi = self.mem_read(ptr.wrapping_add(1) as u16);
                proof {
                    lemma_word(lo, hi);
                }
                (hi as u16) << 8 | (lo as u16)
            },
            AddressingMode::Indirect_Y => {
                let base = self.mem_read(self.program_counter);
                let lo = self.mem_read(base as u16);
                let hi = self.mem_read(base.wrapping_add(1) as u16);
                proof {
                    lemma_word(lo, hi);
                }
                let deref_base = (hi as u16) << 8 | (lo as u16);
                let deref = deref_base.wrapping_add(self.register_y as u16);
                deref
            },
            AddressingMode::NoneAddressing => 0,
        }
    }

    /// Sets the zero and negative flags from `result`.
    fn update_zero_and_negative_flags(&mut self, result: u8)
        ensures
            final(self)@ == with_status(old(self)@, zn(old(self)@.status, result)),
    {
        if result == 0 {
            self.status.insert(CpuFlags::ZERO);
        } else {
            self.status.remove(CpuFlags::ZERO);
        }
        let ghost mid = self.status@;
        assert(mid == with_flag(old(self)@.status, CpuFlags::ZERO, result == 0));
        assert((result & 0b1000_0000 != 0) == (result >= 128)) by (bit_vector);
        if result & 0b1000_0000 != 0 {
            self.status.insert(CpuFlags::NEGATIVE);
        } else {
            self.status.remove(CpuFlags::NEGATIVE);
        }
    }

    /// Adds `data` and the carry to the accumulator, setting carry, overflow,
    /// zero and negative.
    fn add_to_register_a(&mut self, data: u8)
        ensures
            final(self)@ == add_with_carry(old(self)@, data),
    {
        let carry = (if self.status.contains(CpuFlags::CARRY) {
            1u8
        } else {
            0u8
        }) as u16;
        let sum = self.register_a as u16 + data as u16 + carry;
        let has_carry = sum > 0xff;
        if has_carry {
            self.status.insert(CpuFlags::CARRY);
        } else {
            self.status.remove(CpuFlags::CARRY);
        }
        let result = sum as u8;
        assert(result == sum % 256) by (bit_vector)
            requires
                result == sum as u8,
        ;
        let a = self.register_a;
        proof {
            lemma_overflow_bit(a, data, carry as u8);
        }
        let has_overflow = (data ^ result) & (self.register_a ^ result) & 0x80 != 0;
        if has_overflow {
            self.status.insert(CpuFlags::OVERFLOW);
        } else {
            self.status.remove(CpuFlags::OVERFLOW);
        }
        self.set_register_a(result)
    }

    /// Loads the accumulator and sets the zero and negative flags from it.
    fn set_register_a(&mut self, value: u8)
        ensures
            final(self)@ == with_a(old(self)@, value),
    {
        self.register_a = value;
        self.update_zero_and_negative_flags(self.register_a);
    }

    /// ADC: add memory to the accumulator with carry.
    fn adc(&mut self, mode: &AddressingMode)
        requires
            operand_ok(old(self)@, *mode),
        ensures
            final(self)@ == after_adc(old(self)@, *mode),
    {
        let addr = self.get_operand_address(mode);
        let value = self.mem_read(addr);
        self.add_to_register_a(value);
    }

    /// AND: bitwise AND of memory with the accumulator.
    fn and(&mut self, mode: &AddressingMode)
        requires
            operand_ok(old(self)@, *mode),
        ensures
            final(self)@ == after_and(old(self)@, *mode),
    {
        let addr = self.get_operand_address(mode);
        let value = self.mem_read(addr) & self.register_a;
        self.set_register_a(value);
    }

    /// ASL A: shift the accumulator left, bit 7 into the carry.
    fn asl_accumulator(&mut self)
        ensures
            final(self)@ == after_asl_accumulator(old(self)@),
    {
        let mut data = self.register_a;
        proof {
            lemma_shift_left(data);
        }
        if data >> 7 == 1 {
            self.status.insert(CpuFlags::CARRY);
        } else {
            self.status.remove(CpuFlags::CARRY);
        }
        data = data << 1;
        self.set_register_a(data)
    }

    /// ASL: shift a byte of memory left, bit 7 into the carry; returns the
    /// shifted byte.
    fn asl(&mut self, mode: &AddressingMode) -> (r: u8)
        requires
            operand_ok(old(self)@, *mode),
        ensures
            final(self)@ == after_asl(old(self)@, *mode),
            r == wrap8(2 * operand(old(self)@, *mode)),
    {
        let addr = self.get_operand_address(mode);
        let mut data = self.mem_read(addr);
        proof {
            lemma_shift_left(data);
        }
        if data >> 7 == 1 {
            self.status.insert(CpuFlags::CARRY);
        } else {
            self.status.remove(CpuFlags::CARRY);
        }
        data = data << 1;
        self.mem_write(addr, data);
        self.update_zero_and_negative_flags(data);
        data
    }

    /// Jumps by the signed offset at the program counter when `condition` holds.
    fn branch(&mut self, condition: bool)
        requires
            condition ==> old(self)@.program_counter < MEMORY_SIZE,
        ensures
            final(self)@ == after_branch(old(self)@, condition),
    {
        if condition {
            let jump: i8 = self.mem_read(self.program_counter) as i8;
            proof {
                lemma_branch_target(self.program_counter, self@.memory[self.program_counter as int]);
            }
            let jump_addr = self.program_counter.wrapping_add(1).wrapping_add(jump as u16);
            self.program_counter = jump_addr;
        }
    }

    /// BIT: test the accumulator against a byte of memory.
    fn bit(&mut self, mode: &AddressingMode)
        requires
            operand_ok(old(self)@, *mode),
        ensures
            final(self)@ == after_bit(old(self)@, *mode),
    {
        let addr = self.get_operand_address(mode);
        let value = self.mem_read(addr);
        let and = self.register_a & value;
        if and == 0 {
            self.status.insert(CpuFlags::ZERO);
        } else {
            self.status.remove(CpuFlags::ZERO);
        }
        assert((value & 0b1000_0000 > 0) == (value >= 128)) by (bit_vector);
        self.status.set(CpuFlags::NEGATIVE, value & 0b1000_0000 > 0);
        self.status.set(CpuFlags::OVERFLOW, value & 0b0100_0000 > 0);
    }

    /// CMP, CPX, CPY: compare `compare_with` with a byte of memory.
    fn compare(&mut self, mode: &AddressingMode, compare_with: u8)
        requires
            operand_ok(old(self)@, *mode),
        ensures
            final(self)@ == after_compare(old(self)@, *mode, compare_with),
    {
        let addr = self.get_operand_address(mode);
        let value = self.mem_read(addr);
        if compare_with >= value {
            self.status.insert(CpuFlags::CARRY);
        } else {
            self.status.remove(CpuFlags::CARRY);
        }
        let result = compare_with.wrapping_sub(value);
        self.update_zero_and_negative_flags(result);
    }

    /// DEC: decrement a byte of memory; returns the new value.
    fn dec(&mut self, mode: &AddressingMode) -> (r: u8)
        requires
            operand_ok(old(self)@, *mode),
        ensures
            final(self)@ == after_dec(old(self)@, *mode),
            r == wrap8(operand(old(self)@, *mode) - 1),
    {
        let addr = self.get_operand_address(mode);
        let data = self.mem_read(addr).wrapping_sub(1);
        self.mem_write(addr, data);
        self.update_zero_and_negative_flags(data);
        data
    }

    /// DEX: decrement X.
    fn dex(&mut self)
        ensures
            final(self)@ == after_dex(old(self)@),
    {
        self.register_x = self.register_x.wrapping_sub(1);
        self.update_zero_and_negative_flags(self.register_x);
    }

    /// DEY: decrement Y.
    fn dey(&mut self)
        ensures
            final(self)@ == after_dey(old(self)@),
    {
        self.register_y = self.register_y.wrapping_sub(1);
        self.update_zero_and_negative_flags(self.register_y);
    }

    /// EOR: exclusive OR of memory with the accumulator.
    fn eor(&mut self, mode: &AddressingMode)
        requires
            operand_ok(old(self)@, *mode),
        ensures
            final(self)@ == after_eor(old(self)@, *mode),
    {
        let addr = self.get_operand_address(mode);
        let data = self.mem_read(addr);
        self.set_register_a(data ^ self.register_a);
    }

    /// LDA: load the accumulator from memory.
    fn lda(&mut self, mode: &AddressingMode)
        requires
            operand_ok(old(self)@, *mode),
        ensures
            final(self)@ == after_lda(old(self)@, *mode),
    {
        let addr = self.get_operand_address(mode);
        let value = self.mem_read(addr);
        self.set_register_a(value);
    }

    /// STA: store the accumulator in memory.
    fn sta(&mut self, mode: &AddressingMode)
        requires
            operand_ok(old(self)@, *mode),
        ensures
            final(self)@ == after_sta(old(self)@, *mode),
    {
        let addr = self.get_operand_address(mode);
        self.mem_write(addr, self.register_a);
    }

    /// TAX: copy the accumulator into X.
    fn tax(&mut self)
        ensures
            final(self)@ == after_tax(old(self)@),
    {
        self.register_x = self.register_a;
        self.update_zero_and_negative_flags(self.register_x);
    }

    /// INX: increment X.
    fn inx(&mut self)
        ensures
            final(self)@ == after_inx(old(self)@),
    {
        self.register_x = self.register_x.wrapping_add(1);
        self.update_zero_and_negative_flags(self.register_x);
    }
    /// Copies `program` into memory at `0x8000` and points the reset vector
    /// at it.
    pub fn load(&mut self, program: Vec<u8>)
        requires
            PROGRAM_START + program.len() <= MEMORY_SIZE,
        ensures
            final(self)@ == load_state(old(self)@, program@),
    {
        let mut i: usize = 0;
        while i < program.len()
            invariant
                PROGRAM_START + program.len() <= MEMORY_SIZE,
                i <= program.len(),
                self@ == (CpuState { memory: self@.memory, ..old(self)@ }),
                self@.memory.len() == MEMORY_SIZE,
                forall|j: int|
                    0 <= j < MEMORY_SIZE ==> #[trigger] self@.memory[j] == if PROGRAM_START <= j
                        < PROGRAM_START + i {
                        program@[j - PROGRAM_START]
                    } else {
                        old(self)@.memory[j]
                    },
            decreases program.len() - i,
        {
            self.memory[0x8000 + i] = program[i];
            i += 1;
        }
        assert(self@.memory =~= place_program(old(self)@.memory, program@));
        self.mem_write_u16(0xFFFC, 0x8000);
    }

    /// Clears A, X and Y, resets the status register and jumps to the address
    /// held by the reset vector at `0xFFFC`.
    pub fn reset(&mut self)
        ensures
            final(self)@ == reset_state(old(self)@),
    {
        self.register_a = 0;
        self.register_x = 0;
        self.register_y = 0;
        self.status = CpuFlags::from_bits_truncate(0b100100);
        self.program_counter = self.mem_read_u16(0xFFFC);
    }

    /// Loads `program`, resets and runs until a BRK.
    pub fn load_and_run(&mut self, program: Vec<u8>)
        requires
            PROGRAM_START + program.len() <= MEMORY_SIZE,
            halts(reset_state(load_state(old(self)@, program@))),
        ensures
            final(self)@ == final_state(reset_state(load_state(old(self)@, program@))),
    {
        self.load(program);
        self.reset();
        self.run()
    }

    /// One fetch-and-execute cycle; returns whether a BRK was fetched.
    fn step(&mut self) -> (halted: bool)
        requires
            !(step_outcome(old(self)@) is Fault),
        ensures
            match step_outcome(old(self)@) {
                StepOutcome::Halted(t) => halted && final(self)@ == t,
                StepOutcome::Running(t) => !halted && final(self)@ == t,
                StepOutcome::Fault => false,
            },
    {
        let code = self.mem_read(self.program_counter);
        self.program_counter += 1;
        let program_counter_state = self.program_counter;
        let ghost fetched = self@;
        proof {
            lemma_table_well_formed(code);
        }
        let opcode = lookup(code).unwrap();
        match opcode.mnemonic {
            Mnemonic::Adc => self.adc(&opcode.mode),
            Mnemonic::And => self.and(&opcode.mode),
            Mnemonic::Asl => match opcode.mode {
                AddressingMode::NoneAddressing => self.asl_accumulator(),
                _ => {
                    self.asl(&opcode.mode);
                },
            },
            Mnemonic::Bcc => {
                let c = !self.status.contains(CpuFlags::CARRY);
                self.branch(c);
            },
            Mnemonic::Bcs => {
                let c = self.status.contains(CpuFlags::CARRY);
                self.branch(c);
            },
            Mnemonic::Bvc => {
                let c = !self.status.contains(CpuFlags::OVERFLOW);
                self.branch(c);
            },
            Mnemonic::Bvs => {
                let c = self.status.contains(CpuFlags::OVERFLOW);
                self.branch(c);
            },
            Mnemonic::Beq => {
                let c = self.status.contains(CpuFlags::ZERO);
                self.branch(c);
            },
            Mnemonic::Bne => {
                let c = !self.status.contains(CpuFlags::ZERO);
                self.branch(c);
            },
            Mnemonic::Bmi => {
                let c = self.status.contains(CpuFlags::NEGATIVE);
                self.branch(c);
            },
            Mnemonic::Bpl => {
                let c = !self.status.contains(CpuFlags::NEGATIVE);
                self.branch(c);
            },
            Mnemonic::Bit => self.bit(&opcode.mode),
            Mnemonic::Clc => self.status.remove(CpuFlags::CARRY),
            Mnemonic::Cld => self.status.remove(CpuFlags::DECIMAL_MODE),
            Mnemonic::Cli => self.status.remove(CpuFlags::INTERRUPT_DISABLE),
            Mnemonic::Clv => self.status.remove(CpuFlags::OVERFLOW),
            Mnemonic::Cmp => {
                let r = self.register_a;
                self.compare(&opcode.mode, r);
            },
            Mnemonic::Cpx => {
                let r = self.register_x;
                self.compare(&opcode.mode, r);
            },
            Mnemonic::Cpy => {
                let r = self.register_y;
                self.compare(&opcode.mode, r);
            },
            Mnemonic::Dec => {
                self.dec(&opcode.mode);
            },
            Mnemonic::Dex => self.dex(),
            Mnemonic::Dey => self.dey(),
            Mnemonic::Eor => self.eor(&opcode.mode),
            Mnemonic::Lda => self.lda(&opcode.mode),
            Mnemonic::Sta => self.sta(&opcode.mode),
            Mnemonic::Tax => self.tax(),
            Mnemonic::Inx => self.inx(),
            Mnemonic::Brk => {
                return true;
            },
        }
        assert(execute(fetched, opcode) == Some(self@));
        if program_counter_state == self.program_counter {
            self.program_counter += (opcode.len - 1) as u16;
        }
        false
    }

    /// Fetches and executes instructions until a BRK.
    pub fn run(&mut self)
        requires
            halts(old(self)@),
        ensures
            final(self)@ == final_state(old(self)@),
    {
        let ghost mut fuel: nat = choose|fuel: nat| #[trigger] run_for(old(self)@, fuel) is Some;
        loop
            invariant
                run_for(self@, fuel) == Some(final_state(old(self)@)),
            decreases fuel,
        {
            let halted = self.step();
            if halted {
                return;
            }
            proof {
                fuel = (fuel - 1) as nat;
            }
        }
    }
}



/// Every processor's memory holds `MEMORY_SIZE` bytes.
pub proof fn lemma_memory_size(cpu: &CPU)
    ensures
        cpu@.memory.len() == MEMORY_SIZE,
{
}

impl CPU {
    /// The accumulator.
    pub fn register_a(&self) -> (r: u8)
        ensures
            r == self@.register_a,
    {
        self.register_a
    }

    /// The X register.
    pub fn register_x(&self) -> (r: u8)
        ensures
            r == self@.register_x,
    {
        self.register_x
    }

    /// The Y register.
    pub fn register_y(&self) -> (r: u8)
        ensures
            r == self@.register_y,
    {
        self.register_y
    }

    /// The byte of the status register.
    pub fn status_bits(&self) -> (r: u8)
        ensures
            r == self@.status,
    {
        self.status.bits()
    }

    /// The program counter.
    pub fn program_counter(&self) -> (r: u16)
        ensures
            r == self@.program_counter,
    {
        self.program_counter
    }

    /// The stack pointer.
    pub fn stack_pointer(&self) -> (r: u8)
        ensures
            r == self@.stack_pointer,
    {
        self.stack_pointer
    }

    /// Puts `v` in the accumulator; no flag changes.
    pub fn put_register_a(&mut self, v: u8)
        ensures
            final(self)@ == (CpuState { register_a: v, ..old(self)@ }),
    {
        self.register_a = v;
    }

    /// Puts `v` in X; no flag changes.
    pub fn put_register_x(&mut self, v: u8)
        ensures
            final(self)@ == (CpuState { register_x: v, ..old(self)@ }),
    {
        self.register_x = v;
    }

    /// Puts `v` in Y; no flag changes.
    pub fn put_register_y(&mut self, v: u8)
        ensures
            final(self)@ == (CpuState { register_y: v, ..old(self)@ }),
    {
        self.register_y = v;
    }

    /// Puts `bits` in the status register.
    pub fn put_status(&mut self, bits: u8)
        ensures
            final(self)@ == (CpuState { status: bits, ..old(self)@ }),
    {
        self.status = CpuFlags::from_bits_truncate(bits);
    }

    /// Puts `v` in the program counter.
    pub fn put_program_counter(&mut self, v: u16)
        ensures
            final(self)@ == (CpuState { program_counter: v, ..old(self)@ }),
    {
        self.program_counter = v;
    }

    /// Puts `v` in the stack pointer.
    pub fn put_stack_pointer(&mut self, v: u8)
        ensures
            final(self)@ == (CpuState { stack_pointer: v, ..old(self)@ }),
    {
        self.stack_pointer = v;
    }
}

/// Two bytes assembled as a little-endian word.
proof fn lemma_word(lo: u8, hi: u8)
    ensures
        (hi as u16) << 8 | (lo as u16) == lo + 256 * hi,
{
    assert((hi as u16) << 8 | (lo as u16) == lo + 256 * hi) by (bit_vector);
}

/// The tests the interpreter makes on a shifted byte.
proof fn lemma_shift_left(data: u8)
    ensures
        (data >> 7 == 1) == (data >= 128),
        data << 1 == wrap8(2 * data),
{
    assert((data >> 7 == 1) == (data >= 128)) by (bit_vector);
    assert(data << 1 == (2 * data) % 256) by (bit_vector);
}

/// The overflow test of ADC computes signed overflow.
proof fn lemma_overflow_bit(a: u8, m: u8, c: u8)
    requires
        c <= 1,
    ensures
        ((m ^ ((a as u16 + m as u16 + c as u16) as u8)) & (a ^ ((a as u16 + m as u16 + c as u16) as u8)) & 0x80 != 0)
            == signed_overflow(a, m, c as int),
{
    assert(c <= 1 ==> (((m ^ ((a as u16 + m as u16 + c as u16) as u8)) & (a ^ ((a as u16 + m as u16 + c as u16) as u8)) & 0x80 != 0)
        == ((a < 128 && m < 128 && a + m + c >= 128) || (a >= 128 && m >= 128 && a + m + c < 384)))) by (bit_vector);
}

/// The branch target computed with a sign-extended offset.
proof fn lemma_branch_target(pc: u16, m: u8)
    requires
        pc < 0xFFFF,
    ensures
        pc.wrapping_add(1).wrapping_add((m as i8) as u16) == wrap16(pc + 1 + signed8(m)),
{
    assert((m as i8) as u16 == if m >= 128 { m + 0xFF00 } else { m as int }) by (bit_vector);
}

} // verus!
