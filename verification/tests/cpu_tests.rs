use nes_cpu::cpu::CPU;

#[test]
fn test_0xa9_lda_immidiate() {
    let mut cpu = CPU::new();
    cpu.load_and_run(vec![0xa9, 0x05, 0x00]);
    assert_eq!(cpu.register_a, 0x05);
    assert!(cpu.status.bits() & 0b0000_0010 == 0);
    assert!(cpu.status.bits() & 0b1000_0000 == 0);
}

#[test]
fn test_0xa9_lda_immidiate_zero_flag() {
    let mut cpu = CPU::new();
    cpu.load_and_run(vec![0xa9, 0x00, 0x00]);
    assert!(cpu.status.bits() & 0b0000_0010 == 0b10);
}

#[test]
fn test_0x69_add_immediate() {
    let mut cpu = CPU::new();
    cpu.load_and_run(vec![0xa9, 0x34, 0x69, 0x10, 0x00]);
    assert_eq!(cpu.register_a, 0x44);
    assert!(cpu.status.bits() & 0b0000_0001 == 0);
    assert!(cpu.status.bits() & 0b0100_0000 == 0);
}

#[test]
fn test_0x69_add_cary_flag() {
    let mut cpu = CPU::new();
    cpu.load_and_run(vec![0xa9, 0xff, 0x69, 0x10, 0x00]);
    assert_eq!(cpu.register_a, 0x0f);
    assert!(cpu.status.bits() & 0b0100_0000 == 0);
    assert!(cpu.status.bits() & 0b0000_0001 != 0);
}

#[test]
fn test_0x69_add_overflow_flag() {
    let mut cpu = CPU::new();
    cpu.load_and_run(vec![0xa9, 0x50, 0x69, 0x50, 0x00]);
    assert_eq!(cpu.register_a, 0xa0);
    assert!(cpu.status.bits() & 0b0100_0000 != 0);
    assert!(cpu.status.bits() & 0b0000_0001 == 0);
}

#[test]
fn test_0x69_add_carry_and_overflow_flags() {
    let mut cpu = CPU::new();
    cpu.load_and_run(vec![0xa9, 0xd0, 0x69, 0x90, 0x00]);
    assert_eq!(cpu.register_a, 0x60);
    assert!(cpu.status.bits() & 0b0100_0000 != 0);
    assert!(cpu.status.bits() & 0b0000_0001 != 0);
}

#[test]
fn test_0x65_add_zero_page() {
    let mut cpu = CPU::new();
    cpu.mem_write(0x20, 0x10);
    cpu.load_and_run(vec![0xa9, 0x34, 0x65, 0x20, 0x00]);
    assert_eq!(cpu.register_a, 0x44);
    assert!(cpu.status.bits() & 0b0000_0001 == 0);
    assert!(cpu.status.bits() & 0b0100_0000 == 0);
}

#[test]
fn test_0x6d_add_absolute() {
    let mut cpu = CPU::new();
    cpu.mem_write_u16(0x20, 0x10);
    cpu.load_and_run(vec![0xa9, 0x34, 0x6d, 0x20, 0x00]);
    assert_eq!(cpu.register_a, 0x44);
    assert!(cpu.status.bits() & 0b0000_0001 == 0);
    assert!(cpu.status.bits() & 0b0100_0000 == 0);
}

#[test]
fn test_0x29_and_immediate() {
    let mut cpu = CPU::new();
    cpu.load_and_run(vec![0xa9, 0xd0, 0x29, 0x90, 0x00]);
    assert_eq!(cpu.register_a, 0x90);
    assert!(cpu.status.bits() & 0b0000_0010 == 0);
    assert!(cpu.status.bits() & 0b1000_0000 != 0);
}

#[test]
fn test_0x0a_asl_accumulator() {
    let mut cpu = CPU::new();
    cpu.load_and_run(vec![0xa9, 0xd0, 0x0a, 0x00]);
    assert_eq!(cpu.register_a, 0xa0);
    assert!(cpu.status.bits() & 0b0000_0010 == 0);
    assert!(cpu.status.bits() & 0b1000_0000 != 0);
    assert!(cpu.status.bits() & 0b0000_0001 != 0);
}

#[test]
fn test_0xaa_tax_move_a_to_x() {
    let mut cpu = CPU::new();
    cpu.load_and_run(vec![0xa9, 0x0a, 0xaa, 0x00]);
    assert_eq!(cpu.register_x, 10);
}

#[test]
fn test_5_ops_working_together() {
    let mut cpu = CPU::new();
    cpu.load_and_run(vec![0xa9, 0xc0, 0xaa, 0xe8, 0x00]);
    assert_eq!(cpu.register_x, 0xc1);
}

#[test]
fn test_inx_overflow() {
    let mut cpu = CPU::new();
    cpu.load_and_run(vec![0xa9, 0xff, 0xaa, 0xe8, 0xe8, 0x00]);
    assert_eq!(cpu.register_x, 1);
}

#[test]
fn test_lda_from_memory() {
    let mut cpu = CPU::new();
    cpu.mem_write(0x10, 0x55);

    cpu.load_and_run(vec![0xa5, 0x10, 0x00]);

    assert_eq!(cpu.register_a, 0x55);
}
