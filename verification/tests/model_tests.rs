use nes_cpu::cpu::CPU;
use nes_cpu::flags::CpuFlags;
use nes_cpu::opcodes::{lookup, Mnemonic};
use nes_cpu::cpu::AddressingMode;

const CARRY: u8 = 0b0000_0001;
const ZERO: u8 = 0b0000_0010;
const OVERFLOW: u8 = 0b0100_0000;
const NEGATIVE: u8 = 0b1000_0000;

#[test]
fn new_cpu_is_zeroed() {
    let cpu = CPU::new();
    assert_eq!(cpu.register_a, 0);
    assert_eq!(cpu.register_x, 0);
    assert_eq!(cpu.register_y, 0);
    assert_eq!(cpu.program_counter, 0);
    assert_eq!(cpu.stack_pointer, 0xfd);
    assert_eq!(cpu.status.bits(), 0b0010_0100);
    assert_eq!(cpu.mem_read(0x0000), 0);
    assert_eq!(cpu.mem_read(0xfffe), 0);
}

#[test]
fn mem_write_then_read() {
    let mut cpu = CPU::new();
    cpu.mem_write(0x1234, 0xab);
    assert_eq!(cpu.mem_read(0x1234), 0xab);
    assert_eq!(cpu.mem_read(0x1233), 0);
    assert_eq!(cpu.mem_read(0x1235), 0);
}

#[test]
fn mem_write_u16_is_little_endian_and_reads_back() {
    let mut cpu = CPU::new();
    cpu.mem_write_u16(0x40, 0x1234);
    assert_eq!(cpu.mem_read(0x40), 0x34);
    assert_eq!(cpu.mem_read(0x41), 0x12);
    assert_eq!(cpu.mem_read_u16(0x40), 0x1234);
    cpu.mem_write_u16(0xfffc, 0xbeef);
    assert_eq!(cpu.mem_read_u16(0xfffc), 0xbeef);
}

#[test]
fn load_places_program_and_reset_vector() {
    let mut cpu = CPU::new();
    cpu.load(vec![0xa9, 0x07, 0x00]);
    assert_eq!(cpu.mem_read(0x8000), 0xa9);
    assert_eq!(cpu.mem_read(0x8001), 0x07);
    assert_eq!(cpu.mem_read(0x8002), 0x00);
    assert_eq!(cpu.mem_read_u16(0xfffc), 0x8000);
    // loading changes no register
    assert_eq!(cpu.program_counter, 0);
}

#[test]
fn reset_jumps_to_reset_vector_and_clears_registers() {
    let mut cpu = CPU::new();
    cpu.register_a = 9;
    cpu.register_x = 8;
    cpu.register_y = 7;
    cpu.stack_pointer = 0x10;
    cpu.status = CpuFlags::from_bits_truncate(0xff);
    cpu.mem_write(0x0300, 0x77);
    cpu.mem_write_u16(0xfffc, 0x1234);
    cpu.reset();
    assert_eq!(cpu.program_counter, 0x1234);
    assert_eq!(cpu.register_a, 0);
    assert_eq!(cpu.register_x, 0);
    assert_eq!(cpu.register_y, 0);
    assert_eq!(cpu.status.bits(), 0b0010_0100);
    assert_eq!(cpu.stack_pointer, 0x10);
    assert_eq!(cpu.mem_read(0x0300), 0x77);
}

#[test]
fn brk_stops_just_past_itself() {
    let mut cpu = CPU::new();
    cpu.load_and_run(vec![0x00]);
    assert_eq!(cpu.program_counter, 0x8001);
    cpu.load_and_run(vec![0xa9, 0x01, 0x00]);
    assert_eq!(cpu.program_counter, 0x8003);
}

#[test]
fn adc_adds_carry_in() {
    let mut cpu = CPU::new();
    // 0xff + 0x01 = 0x00 with carry; then 0x00 + 0x00 + carry = 0x01
    cpu.load_and_run(vec![0xa9, 0xff, 0x69, 0x01, 0x69, 0x00, 0x00]);
    assert_eq!(cpu.register_a, 0x01);
    assert_eq!(cpu.status.bits() & CARRY, 0);
}

#[test]
fn adc_result_and_carry_make_up_the_sum() {
    let mut cpu = CPU::new();
    cpu.load_and_run(vec![0xa9, 0x80, 0x69, 0x80, 0x00]);
    // 0x80 + 0x80 = 0x100: result 0, carry set, signed -128 + -128 overflows
    assert_eq!(cpu.register_a, 0x00);
    assert_ne!(cpu.status.bits() & CARRY, 0);
    assert_ne!(cpu.status.bits() & OVERFLOW, 0);
    assert_ne!(cpu.status.bits() & ZERO, 0);
    assert_eq!(cpu.status.bits() & NEGATIVE, 0);
}

#[test]
fn eor_immediate() {
    let mut cpu = CPU::new();
    cpu.load_and_run(vec![0xa9, 0xf0, 0x49, 0xff, 0x00]);
    assert_eq!(cpu.register_a, 0x0f);
    assert_eq!(cpu.status.bits() & NEGATIVE, 0);
    cpu.load_and_run(vec![0xa9, 0x5a, 0x49, 0x5a, 0x00]);
    assert_eq!(cpu.register_a, 0);
    assert_ne!(cpu.status.bits() & ZERO, 0);
}

#[test]
fn zero_page_x_wraps_within_the_zero_page() {
    let mut cpu = CPU::new();
    cpu.mem_write(0x01, 0x42);
    // X = 0xff; LDA $02,X reads ($02 + $ff) mod $100 = $01
    cpu.load_and_run(vec![0xa9, 0xff, 0xaa, 0xb5, 0x02, 0x00]);
    assert_eq!(cpu.register_a, 0x42);
}

#[test]
fn absolute_x_and_absolute_y() {
    let mut cpu = CPU::new();
    cpu.mem_write(0x0305, 0x11);
    // X = 5; LDA $0300,X
    cpu.load_and_run(vec![0xa9, 0x05, 0xaa, 0xbd, 0x00, 0x03, 0x00]);
    assert_eq!(cpu.register_a, 0x11);
    let mut cpu = CPU::new();
    cpu.mem_write(0x03ff, 0x22);
    // Y = 0 - 1 = $ff; LDA $0300,Y
    cpu.load_and_run(vec![0x88, 0xb9, 0x00, 0x03, 0x00]);
    assert_eq!(cpu.register_y, 0xff);
    assert_eq!(cpu.register_a, 0x22);
}

#[test]
fn indirect_x_and_indirect_y() {
    let mut cpu = CPU::new();
    // pointer at $12/$13 -> $0456
    cpu.mem_write(0x12, 0x56);
    cpu.mem_write(0x13, 0x04);
    cpu.mem_write(0x0456, 0x99);
    // X = 2; LDA ($10,X)
    cpu.load_and_run(vec![0xa9, 0x02, 0xaa, 0xa1, 0x10, 0x00]);
    assert_eq!(cpu.register_a, 0x99);

    let mut cpu = CPU::new();
    cpu.mem_write(0x20, 0xf0);
    cpu.mem_write(0x21, 0x04);
    cpu.mem_write(0x04ef, 0x33);
    // Y = $ff; LDA ($20),Y reads $04f0 + $ff = $05ef
    cpu.mem_write(0x05ef, 0x44);
    cpu.load_and_run(vec![0x88, 0xb1, 0x20, 0x00]);
    assert_eq!(cpu.register_a, 0x44);
}

#[test]
fn sta_stores_accumulator() {
    let mut cpu = CPU::new();
    cpu.load_and_run(vec![0xa9, 0x5c, 0x85, 0x30, 0x8d, 0x00, 0x02, 0x00]);
    assert_eq!(cpu.mem_read(0x30), 0x5c);
    assert_eq!(cpu.mem_read(0x0200), 0x5c);
}

#[test]
fn asl_memory_shifts_into_carry() {
    let mut cpu = CPU::new();
    cpu.mem_write(0x10, 0x81);
    cpu.load_and_run(vec![0x06, 0x10, 0x00]);
    assert_eq!(cpu.mem_read(0x10), 0x02);
    assert_ne!(cpu.status.bits() & CARRY, 0);
    assert_eq!(cpu.status.bits() & ZERO, 0);
}

#[test]
fn bit_test_sets_zero_negative_overflow() {
    let mut cpu = CPU::new();
    cpu.mem_write(0x10, 0xc0);
    cpu.load_and_run(vec![0xa9, 0x01, 0x24, 0x10, 0x00]);
    assert_ne!(cpu.status.bits() & ZERO, 0);
    assert_ne!(cpu.status.bits() & NEGATIVE, 0);
    assert_ne!(cpu.status.bits() & OVERFLOW, 0);
    assert_eq!(cpu.register_a, 0x01);
}

#[test]
fn compare_sets_carry_and_zero() {
    let mut cpu = CPU::new();
    cpu.load_and_run(vec![0xa9, 0x10, 0xc9, 0x10, 0x00]);
    assert_ne!(cpu.status.bits() & CARRY, 0);
    assert_ne!(cpu.status.bits() & ZERO, 0);
    cpu.load_and_run(vec![0xa9, 0x10, 0xc9, 0x20, 0x00]);
    assert_eq!(cpu.status.bits() & CARRY, 0);
    assert_eq!(cpu.status.bits() & ZERO, 0);
    assert_ne!(cpu.status.bits() & NEGATIVE, 0);
    // CPX #$05 with X = 6, CPY #$00 with Y = 0
    cpu.load_and_run(vec![0xa9, 0x06, 0xaa, 0xe0, 0x05, 0x00]);
    assert_ne!(cpu.status.bits() & CARRY, 0);
    assert_eq!(cpu.status.bits() & ZERO, 0);
    cpu.load_and_run(vec![0xc0, 0x00, 0x00]);
    assert_ne!(cpu.status.bits() & ZERO, 0);
}

#[test]
fn dec_wraps_below_zero() {
    let mut cpu = CPU::new();
    cpu.load_and_run(vec![0xc6, 0x10, 0x00]);
    assert_eq!(cpu.mem_read(0x10), 0xff);
    assert_ne!(cpu.status.bits() & NEGATIVE, 0);
}

#[test]
fn dex_undoes_inx() {
    let mut cpu = CPU::new();
    cpu.load_and_run(vec![0xa9, 0x7f, 0xaa, 0xe8, 0xca, 0x00]);
    assert_eq!(cpu.register_x, 0x7f);
    cpu.load_and_run(vec![0xca, 0x00]);
    assert_eq!(cpu.register_x, 0xff);
    assert_ne!(cpu.status.bits() & NEGATIVE, 0);
    cpu.load_and_run(vec![0xca, 0xe8, 0x00]);
    assert_eq!(cpu.register_x, 0);
    assert_ne!(cpu.status.bits() & ZERO, 0);
}

#[test]
fn bne_loop_counts_down() {
    let mut cpu = CPU::new();
    // LDA #3; TAX; loop: DEX; BNE loop; BRK
    cpu.load_and_run(vec![0xa9, 0x03, 0xaa, 0xca, 0xd0, 0xfd, 0x00]);
    assert_eq!(cpu.register_x, 0);
    assert_ne!(cpu.status.bits() & ZERO, 0);
    assert_eq!(cpu.program_counter, 0x8007);
}

#[test]
fn branch_not_taken_skips_its_offset() {
    let mut cpu = CPU::new();
    // LDA #1 (Z clear); BEQ +2 (not taken); LDA #5; BRK
    cpu.load_and_run(vec![0xa9, 0x01, 0xf0, 0x02, 0xa9, 0x05, 0x00]);
    assert_eq!(cpu.register_a, 0x05);
    // LDA #0 (Z set); BEQ +2 (taken) skips LDA #5
    cpu.load_and_run(vec![0xa9, 0x00, 0xf0, 0x02, 0xa9, 0x05, 0x00]);
    assert_eq!(cpu.register_a, 0x00);
}

#[test]
fn clear_flag_instructions() {
    let mut cpu = CPU::new();
    // carry and overflow set by 0x50 + 0x50? only overflow; use 0xd0 + 0x90
    cpu.load_and_run(vec![0xa9, 0xd0, 0x69, 0x90, 0x18, 0xb8, 0x58, 0xd8, 0x00]);
    assert_eq!(cpu.status.bits() & CARRY, 0);
    assert_eq!(cpu.status.bits() & OVERFLOW, 0);
    assert_eq!(cpu.status.bits() & 0b0000_0100, 0);
    assert_eq!(cpu.status.bits() & 0b0000_1000, 0);
    // the break bit of the reset value stays
    assert_ne!(cpu.status.bits() & 0b0010_0000, 0);
}

#[test]
fn flags_insert_remove_set_contains() {
    let mut f = CpuFlags::from_bits_truncate(0);
    f.insert(CpuFlags::CARRY | CpuFlags::NEGATIVE);
    assert_eq!(f.bits(), 0b1000_0001);
    assert!(f.contains(CpuFlags::CARRY));
    assert!(!f.contains(CpuFlags::ZERO));
    f.remove(CpuFlags::CARRY);
    assert_eq!(f.bits(), 0b1000_0000);
    f.set(CpuFlags::OVERFLOW, true);
    assert_eq!(f.bits(), 0b1100_0000);
    f.set(CpuFlags::NEGATIVE, false);
    assert_eq!(f.bits(), 0b0100_0000);
}

#[test]
fn opcode_table_entries() {
    let op = lookup(0x6d).unwrap();
    assert_eq!(op.code, 0x6d);
    assert_eq!(op.len, 3);
    assert!(matches!(op.mnemonic, Mnemonic::Adc));
    assert!(matches!(op.mode, AddressingMode::Absolute));
    let op = lookup(0xd0).unwrap();
    assert_eq!(op.len, 2);
    assert!(matches!(op.mnemonic, Mnemonic::Bne));
    assert!(lookup(0x02).is_none());
    assert!(lookup(0xa2).is_none());
}

#[test]
fn branch_onto_its_own_offset_moves_on() {
    let mut cpu = CPU::new();
    // LDA #1 (Z clear); BNE -1 lands on the byte after the opcode, which is
    // where the program counter already stands, so it moves past the offset.
    cpu.load_and_run(vec![0xa9, 0x01, 0xd0, 0xff, 0xa9, 0x07, 0x00]);
    assert_eq!(cpu.register_a, 0x07);
}

#[test]
fn register_accessors() {
    let mut cpu = CPU::new();
    cpu.put_register_a(1);
    cpu.put_register_x(2);
    cpu.put_register_y(3);
    cpu.put_status(0x81);
    cpu.put_program_counter(0x1234);
    cpu.put_stack_pointer(0x40);
    assert_eq!(cpu.register_a(), 1);
    assert_eq!(cpu.register_x(), 2);
    assert_eq!(cpu.register_y(), 3);
    assert_eq!(cpu.status_bits(), 0x81);
    assert_eq!(cpu.program_counter(), 0x1234);
    assert_eq!(cpu.stack_pointer(), 0x40);
    assert_eq!(cpu.register_a, 1);
    assert_eq!(cpu.status.bits(), 0x81);
}

#[test]
fn load_keeps_registers_and_other_bytes_and_vector_wins_over_long_program() {
    let mut cpu = CPU::new();
    cpu.put_register_x(9);
    cpu.mem_write(0x7fff, 0x11);
    let program = vec![0xee; 0x7fff];
    cpu.load(program);
    assert_eq!(cpu.register_x(), 9);
    assert_eq!(cpu.mem_read(0x7fff), 0x11);
    assert_eq!(cpu.mem_read(0x8000), 0xee);
    assert_eq!(cpu.mem_read(0xfffb), 0xee);
    assert_eq!(cpu.mem_read(0xfffc), 0x00);
    assert_eq!(cpu.mem_read(0xfffd), 0x80);
    assert_eq!(cpu.mem_read(0xfffe), 0xee);
}
