//! Scenario tests: wraparound, stack round trips, rotation, subroutine
//! linkage, the indirect-jump quirk, faults and the per-step hook.

use nes_rs::cpu::{NoHook, RunError, StepHook, CPU};
use nes_rs::Nes;

/// A hook that lets a bounded number of instructions pass, then aborts.
struct CountdownHook {
    left: u32,
}

impl StepHook for CountdownHook {
    fn on_step(&mut self, _cpu: &mut CPU) -> Result<(), ()> {
        if self.left == 0 {
            Err(())
        } else {
            self.left -= 1;
            Ok(())
        }
    }
}

#[test]
fn test_lda_negative_flag() {
    let mut cpu = CPU::new();
    cpu.load_and_run(&vec![0xa9, 0x80, 0x00]).unwrap();
    assert_eq!(cpu.reg_a, 0x80);
    assert_eq!(cpu.status & 0b1000_0000, 0b1000_0000);
    assert_eq!(cpu.status & 0b0000_0010, 0);
}

#[test]
fn test_indexed_increment_wraps_through_zero() {
    let mut cpu = CPU::new();
    cpu.load_and_run(&vec![0xa9, 0xff, 0xaa, 0xe8, 0xe8, 0x00]).unwrap();
    assert_eq!(cpu.index_reg_x, 0x01);
}

#[test]
fn test_adc_commutes_concrete() {
    let mut one = CPU::new();
    one.load_and_run(&vec![0xa9, 0x37, 0x69, 0x99, 0x00]).unwrap();
    let mut two = CPU::new();
    two.load_and_run(&vec![0xa9, 0x99, 0x69, 0x37, 0x00]).unwrap();
    assert_eq!(one.reg_a, two.reg_a);
    assert_eq!(one.status, two.status);
    assert_eq!(one.reg_a, 0xD0);
}

#[test]
fn test_adc_overflow_flag() {
    let mut cpu = CPU::new();
    cpu.load_and_run(&vec![0xa9, 0x50, 0x69, 0x50, 0x00]).unwrap();
    assert_eq!(cpu.reg_a, 0xa0);
    assert_eq!(cpu.status & 0b0100_0000, 0b0100_0000);
    assert_eq!(cpu.status & 0b1000_0000, 0b1000_0000);
    assert_eq!(cpu.status & 0b0000_0001, 0);
}

#[test]
fn test_sbc() {
    let mut cpu = CPU::new();
    cpu.load_and_run(&vec![0xa9, 0x05, 0x38, 0xe9, 0x03, 0x00]).unwrap();
    assert_eq!(cpu.reg_a, 0x02);
    assert_eq!(cpu.status & 0b0000_0001, 0b0000_0001);
}

#[test]
fn test_sbc_with_borrow() {
    let mut cpu = CPU::new();
    cpu.load_and_run(&vec![0xa9, 0x03, 0x38, 0xe9, 0x05, 0x00]).unwrap();
    assert_eq!(cpu.reg_a, 0xfe);
    assert_eq!(cpu.status & 0b0000_0001, 0);
}

#[test]
fn test_lsr_accumulator() {
    let mut cpu = CPU::new();
    cpu.load_and_run(&vec![0xa9, 0x03, 0x4a, 0x00]).unwrap();
    assert_eq!(cpu.reg_a, 0x01);
    assert_eq!(cpu.status & 0b0000_0001, 0b0000_0001);
}

#[test]
fn test_push_pull_accumulator_round_trip() {
    let mut cpu = CPU::new();
    cpu.load_and_run(&vec![0xa9, 0xab, 0x48, 0xa9, 0x00, 0x68, 0x00]).unwrap();
    assert_eq!(cpu.reg_a, 0xab);
    assert_eq!(cpu.sp, 0xfd);
}

#[test]
fn test_push_pull_status_round_trip() {
    let mut cpu = CPU::new();
    cpu.load_and_run(&vec![0x38, 0x08, 0x18, 0x28, 0x00]).unwrap();
    assert_eq!(cpu.status & 0b0000_0001, 0b0000_0001);
    assert_eq!(cpu.sp, 0xfd);
}

#[test]
fn test_rotate_left_then_right_restores() {
    let mut cpu = CPU::new();
    cpu.load_and_run(&vec![0xa9, 0x6a, 0x38, 0x2a, 0x6a, 0x00]).unwrap();
    assert_eq!(cpu.reg_a, 0x6a);
    assert_eq!(cpu.status & 0b0000_0001, 0b0000_0001);
}

#[test]
fn test_rotate_right_then_left_restores() {
    let mut cpu = CPU::new();
    cpu.load_and_run(&vec![0xa9, 0x95, 0x18, 0x6a, 0x2a, 0x00]).unwrap();
    assert_eq!(cpu.reg_a, 0x95);
    assert_eq!(cpu.status & 0b0000_0001, 0);
}

#[test]
fn test_rol_feeds_carry_into_bit_zero() {
    let mut cpu = CPU::new();
    cpu.load_and_run(&vec![0xa9, 0x40, 0x38, 0x2a, 0x00]).unwrap();
    assert_eq!(cpu.reg_a, 0x81);
    assert_eq!(cpu.status & 0b0000_0001, 0);
}

#[test]
fn test_ror_feeds_carry_into_bit_seven() {
    let mut cpu = CPU::new();
    cpu.load_and_run(&vec![0xa9, 0x02, 0x38, 0x6a, 0x00]).unwrap();
    assert_eq!(cpu.reg_a, 0x81);
    assert_eq!(cpu.status & 0b0000_0001, 0);
}

#[test]
fn test_jsr_rts_returns_past_the_call() {
    let mut cpu = CPU::new();
    cpu.load_and_run(&vec![
        0x20, 0x05, 0x06, /* jsr 0x0605 */
        0x00, /* BRK, the instruction after the call */
        0xea, /* nop, skipped */
        0x60, /* rts */
    ])
    .unwrap();
    assert_eq!(cpu.pc, 0x0604);
    assert_eq!(cpu.sp, 0xfd);
}

#[test]
fn test_rti_restores_status_and_pc() {
    let mut cpu = CPU::new();
    cpu.load_and_run(&vec![
        0xa9, 0x06, 0x48, /* push return address, high byte */
        0xa9, 0x0a, 0x48, /* push return address, low byte */
        0xa9, 0x81, 0x48, /* push a status byte */
        0x40, /* rti; 0x060a holds BRK */
    ])
    .unwrap();
    assert_eq!(cpu.status, 0x81);
    assert_eq!(cpu.pc, 0x060b);
}

#[test]
fn test_jmp_absolute() {
    let mut cpu = CPU::new();
    cpu.load_and_run(&vec![0x4c, 0x05, 0x06, 0xa9, 0x01, 0x00]).unwrap();
    assert_eq!(cpu.reg_a, 0x00);
    assert_eq!(cpu.pc, 0x0606);
}

#[test]
fn test_jmp_indirect() {
    let mut cpu = CPU::new();
    cpu.mem_write(0x0210, 0x05);
    cpu.mem_write(0x0211, 0x06);
    cpu.load_and_run(&vec![0x6c, 0x10, 0x02, 0xff, 0xff, 0xa9, 0x07, 0x00]).unwrap();
    assert_eq!(cpu.reg_a, 0x07);
}

#[test]
fn test_jmp_indirect_page_boundary_quirk() {
    let mut cpu = CPU::new();
    // Pointer at 0x02FF: low byte from 0x02FF, high byte from 0x0200,
    // the start of the same page, not from 0x0300.
    cpu.mem_write(0x02ff, 0x34);
    cpu.mem_write(0x0300, 0x12);
    cpu.mem_write(0x0200, 0x56);
    cpu.load_and_run(&vec![0x6c, 0xff, 0x02, 0x00]).unwrap();
    assert_eq!(cpu.pc, 0x5635);
}

#[test]
fn test_branch_backwards() {
    let mut cpu = CPU::new();
    cpu.load_and_run(&vec![
        0xa2, 0x02, /* ldx #0x02 */
        0xca, /* dex */
        0xd0, 0xfd, /* bne back to dex */
        0x00, /* BRK */
    ])
    .unwrap();
    assert_eq!(cpu.index_reg_x, 0x00);
}

#[test]
fn test_taken_branch_lands_exactly_on_target() {
    let mut cpu = CPU::new();
    // A taken branch with displacement -1 targets its own displacement
    // byte, 0xFF, which is not a documented opcode: a decode fault.
    assert_eq!(
        cpu.load_and_run(&vec![0xa9, 0x00, 0xf0, 0xff, 0x00]),
        Err(RunError::DecodeFault)
    );
    assert_eq!(cpu.pc, 0x0604);
}

#[test]
fn test_stx_and_sty() {
    let mut cpu = CPU::new();
    cpu.load_and_run(&vec![0xa2, 0x42, 0x86, 0x10, 0xa0, 0x33, 0x84, 0x11, 0x00]).unwrap();
    assert_eq!(cpu.mem_read(0x10), 0x42);
    assert_eq!(cpu.mem_read(0x11), 0x33);
}

#[test]
fn test_decode_fault_on_unknown_opcode() {
    let mut cpu = CPU::new();
    assert_eq!(cpu.load_and_run(&vec![0xff]), Err(RunError::DecodeFault));
}

#[test]
fn test_empty_program_halts_at_once() {
    let mut cpu = CPU::new();
    cpu.load_and_run(&vec![]).unwrap();
    assert_eq!(cpu.pc, 0x0601);
}

#[test]
fn test_full_window_program() {
    let mut cpu = CPU::new();
    // The largest image the window holds; its first byte halts.
    cpu.load_and_run(&vec![0u8; 0xfa00]).unwrap();
    assert_eq!(cpu.pc, 0x0601);
}

#[test]
fn test_hook_abort_stops_the_run() {
    let mut cpu = CPU::new();
    cpu.load(&vec![0x4c, 0x00, 0x06]); /* jmp to itself, forever */
    cpu.reset();
    let mut hook = CountdownHook { left: 10 };
    assert_eq!(cpu.run_with_callback(&mut hook), Err(RunError::HookAbort));
}

#[test]
fn test_no_hook_runs_to_completion() {
    let mut cpu = CPU::new();
    cpu.load(&vec![0xa9, 0x05, 0x00]);
    cpu.reset();
    cpu.run_with_callback(&mut NoHook).unwrap();
    assert_eq!(cpu.reg_a, 0x05);
}

#[test]
fn test_nes_exec() {
    let mut nes = Nes::new(&vec![0xa9, 0x2a, 0x00]);
    nes.exec(&mut NoHook).unwrap();
    assert_eq!(nes.cpu.reg_a, 0x2a);
}

#[test]
fn test_decode_rejects_undocumented_opcode() {
    assert!(nes_rs::opcode::decode(0xff).is_none());
    assert!(nes_rs::opcode::decode(0x02).is_none());
    let brk = nes_rs::opcode::decode(0x00).unwrap();
    assert_eq!(brk.len, 1);
    let lda = nes_rs::opcode::decode(0xa9).unwrap();
    assert_eq!(lda.len, 2);
}

#[test]
fn test_compare_leaves_register_untouched() {
    let mut cpu = CPU::new();
    cpu.load_and_run(&vec![0xa9, 0x34, 0xc9, 0x12, 0x00]).unwrap();
    assert_eq!(cpu.reg_a, 0x34);
    assert_eq!(cpu.status & 0b0000_0011, 0b0000_0001);
}

#[test]
fn test_load_flags_all_values() {
    let mut cpu = CPU::new();
    for v in 0..=255u8 {
        cpu.load_and_run(&vec![0xa9, v, 0x00]).unwrap();
        assert_eq!(cpu.reg_a, v);
        assert_eq!(cpu.status & 0b0000_0010 != 0, v == 0);
        assert_eq!(cpu.status & 0b1000_0000 != 0, v & 0x80 != 0);
    }
}

#[test]
fn test_adc_commutes_all_pairs() {
    let mut cpu = CPU::new();
    for a in 0..=255u8 {
        for b in 0..=a {
            cpu.load_and_run(&vec![0xa9, a, 0x69, b, 0x00]).unwrap();
            let (r1, s1) = (cpu.reg_a, cpu.status);
            cpu.load_and_run(&vec![0xa9, b, 0x69, a, 0x00]).unwrap();
            assert_eq!(r1, cpu.reg_a);
            assert_eq!(s1, cpu.status);
        }
    }
}

#[test]
fn test_push_pull_all_values() {
    let mut cpu = CPU::new();
    for v in 0..=255u8 {
        cpu.load(&vec![0x48, 0xa9, 0x00, 0x68, 0x00]);
        cpu.reset();
        cpu.reg_a = v;
        cpu.run().unwrap();
        assert_eq!(cpu.reg_a, v);
        assert_eq!(cpu.sp, 0xfd);
        cpu.load(&vec![0x08, 0xa9, 0x00, 0x28, 0x00]);
        cpu.reset();
        cpu.status = v;
        cpu.run().unwrap();
        assert_eq!(cpu.status, v);
        assert_eq!(cpu.sp, 0xfd);
    }
}

#[test]
fn test_cmp_all_pairs() {
    let mut cpu = CPU::new();
    for reg in 0..=255u8 {
        for op in 0..=255u8 {
            cpu.load(&vec![0xc9, op, 0x00]);
            cpu.reset();
            cpu.reg_a = reg;
            cpu.run().unwrap();
            assert_eq!(cpu.reg_a, reg);
            assert_eq!(cpu.status & 0b0000_0001 != 0, reg >= op);
            assert_eq!(cpu.status & 0b0000_0010 != 0, reg == op);
        }
    }
}

#[test]
fn test_rotate_round_trip_all_values() {
    let mut cpu = CPU::new();
    for v in 0..=255u8 {
        for carry in [false, true] {
            let set_or_clear = if carry { 0x38 } else { 0x18 };
            cpu.load(&vec![set_or_clear, 0x2a, 0x6a, 0x00]);
            cpu.reset();
            cpu.reg_a = v;
            cpu.run().unwrap();
            assert_eq!(cpu.reg_a, v);
            assert_eq!(cpu.status & 0b0000_0001 != 0, carry);
            cpu.load(&vec![set_or_clear, 0x6a, 0x2a, 0x00]);
            cpu.reset();
            cpu.reg_a = v;
            cpu.run().unwrap();
            assert_eq!(cpu.reg_a, v);
            assert_eq!(cpu.status & 0b0000_0001 != 0, carry);
        }
    }
}

#[test]
fn test_sbc_flags_exhaustive() {
    // Cross-validates the complement-and-add derivation of subtraction
    // against the direct signed formulation, for every value,
    // accumulator and carry-in combination.
    let mut cpu = CPU::new();
    for a in 0..=255u8 {
        for b in 0..=255u8 {
            for carry in [false, true] {
                let set_or_clear = if carry { 0x38 } else { 0x18 };
                cpu.load(&vec![set_or_clear, 0xe9, b, 0x00]);
                cpu.reset();
                cpu.reg_a = a;
                cpu.run().unwrap();
                let borrow: i16 = if carry { 0 } else { 1 };
                let wide: i16 = a as i16 - b as i16 - borrow;
                let expected = wide as u8;
                assert_eq!(cpu.reg_a, expected);
                // Carry records the absence of a borrow.
                assert_eq!(cpu.status & 0b0000_0001 != 0, wide >= 0);
                // Overflow by the direct rule: operand signs differ and
                // the result's sign left the accumulator's.
                let direct_overflow = (a ^ b) & 0x80 != 0 && (a ^ expected) & 0x80 != 0;
                assert_eq!(cpu.status & 0b0100_0000 != 0, direct_overflow);
                assert_eq!(cpu.status & 0b0000_0010 != 0, expected == 0);
                assert_eq!(cpu.status & 0b1000_0000 != 0, expected & 0x80 != 0);
            }
        }
    }
}
