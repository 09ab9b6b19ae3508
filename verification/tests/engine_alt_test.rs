//! The same engine scenarios once more, exercising a second processor
//! instance per case.

use nes_rs::cpu::CPU;

#[test]
fn cpu_test_0xa9_lda_immidiate_load_data() {
    let mut cpu = CPU::new();
    cpu.load_and_run(&vec![0xa9, 0x05, 0x00]).unwrap();
    assert_eq!(cpu.reg_a, 0x05);
    assert!(cpu.status & 0b0000_0010 == 0b00);
    assert!(cpu.status & 0b1000_0000 == 0);
}

#[test]
fn cpu_test_lda_from_zero_memory() {
    let mut cpu = CPU::new();
    cpu.mem_write(0x10, 0x55);
    cpu.load_and_run(&vec![0xa5, 0x10, 0x00]).unwrap();
    assert_eq!(cpu.reg_a, 0x55);
}

#[test]
fn cpu_test_lda_from_absolute_memory() {
    let mut cpu = CPU::new();
    cpu.mem_write(0x1000, 0x55);
    cpu.load_and_run(&vec![0xad, 0x00, 0x10, 0x00]).unwrap();
    assert_eq!(cpu.reg_a, 0x55);
}

#[test]
fn cpu_test_sta_to_zero_memory() {
    let mut cpu = CPU::new();
    cpu.load(&vec![0x85, 0x10, 0x00]);
    cpu.reset();
    cpu.reg_a = 0x55;
    cpu.run().unwrap();
    assert_eq!(cpu.mem_read(0x10), 0x55);
}

#[test]
fn cpu_test_sta_to_zero_x_memory() {
    let mut cpu = CPU::new();
    cpu.load(&vec![0x95, 0x10, 0x00]);
    cpu.reset();
    cpu.reg_a = 0x55;
    cpu.index_reg_x = 0x01;
    cpu.run().unwrap();
    assert_eq!(cpu.mem_read(0x11), 0x55);
}

#[test]
fn cpu_test_0xa9_lda_zero_flag() {
    let mut cpu = CPU::new();
    cpu.load_and_run(&vec![0xa9, 0x00, 0x00]).unwrap();
    assert!(cpu.status & 0b0000_0010 == 0b10);
}

#[test]
fn cpu_test_0xaa_tax_move_a_to_x() {
    let mut cpu = CPU::new();
    cpu.load(&vec![0xaa, 0x00]);
    cpu.reset();
    cpu.reg_a = 10;
    cpu.run().unwrap();
    assert!(cpu.index_reg_x == 10);
    assert!(cpu.status & 0b0000_0010 == 0b00);
    assert!(cpu.status & 0b1000_0000 == 0);
}

#[test]
fn cpu_test_0xaa_tax_move_a_to_x_zero_flg() {
    let mut cpu = CPU::new();
    cpu.load(&vec![0xaa, 0x00]);
    cpu.reset();
    cpu.reg_a = 0;
    cpu.run().unwrap();
    assert!(cpu.index_reg_x == 0);
    assert!(cpu.status & 0b0000_0010 == 0b10);
}

#[test]
fn cpu_test_5_ops_working_together() {
    let mut cpu = CPU::new();
    cpu.load_and_run(&vec![0xa9, 0xc0, 0xaa, 0xe8, 0x00]).unwrap();

    assert_eq!(cpu.index_reg_x, 0xc1)
}

#[test]
fn cpu_test_inx_overflow() {
    let mut cpu = CPU::new();
    cpu.load(&vec![0xe8, 0xe8, 0x00]);
    cpu.reset();
    cpu.index_reg_x = 0xff;
    cpu.run().unwrap();
    assert_eq!(cpu.index_reg_x, 1)
}
