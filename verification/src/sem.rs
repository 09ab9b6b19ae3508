//! The mathematical model of the processor.
//!
//! `CpuView` is the abstract machine state; every instruction has a spec
//! transition function here, and `step_sem` composes them into the meaning
//! of one whole fetch-decode-execute step. The executable engine in
//! `cpu` proves that it follows these functions exactly.
//!
//! Each per-instruction transition acts on a view whose program counter
//! has already moved past the opcode byte; `step_sem` performs that move
//! and the trailing advance over the operand bytes.

use vstd::prelude::*;

use crate::flags::{flag_set, with_flag, with_zn, FLAG_C, FLAG_N, FLAG_V, FLAG_Z};
use crate::opcode::{spec_decode, AddressingMode};

verus! {

/// Number of addressable bytes: the full 16-bit address space.
pub const MEM_SIZE: usize = 0x10000;

/// Base address of the stack page.
pub const STACK_BASE: u16 = 0x0100;

/// Power-on offset of the stack pointer within the stack page.
pub const STACK_RESET: u8 = 0xFD;

/// Address of the two-byte little-endian reset vector.
pub const RESET_VECTOR: u16 = 0xFFFC;

/// Address at which a program image is placed.
pub const LOAD_BASE: u16 = 0x0600;

/// How one execution step ended.
#[derive(Debug, Clone, Copy, PartialEq, Eq, Structural)]
pub enum StepOutcome {
    /// The instruction completed and execution may continue.
    Running,
    /// The halt opcode was fetched; execution is over.
    Halted,
    /// The fetched byte is not in the opcode table.
    Faulted,
}

/// Mathematical state of the processor: registers, status byte, memory.
#[verifier::ext_equal]
pub struct CpuView {
    pub pc: u16,
    pub a: u8,
    pub x: u8,
    pub y: u8,
    pub sp: u8,
    pub status: u8,
    pub mem: Seq<u8>,
}

impl CpuView {
    /// Memory covers the full address space.
    pub open spec fn inv(self) -> bool {
        self.mem.len() == MEM_SIZE
    }
}

/// The 16-bit value with high byte `hi` and low byte `lo`.
pub open spec fn combine(hi: u8, lo: u8) -> u16 {
    (256 * hi + lo) as u16
}

/// High byte of a 16-bit value.
pub open spec fn hi16(d: u16) -> u8 {
    (d / 256) as u8
}

/// Low byte of a 16-bit value.
pub open spec fn lo16(d: u16) -> u8 {
    (d % 256) as u8
}

/// The byte in memory at `addr`.
pub open spec fn mem8(v: CpuView, addr: u16) -> u8 {
    v.mem[addr as int]
}

/// The state with `data` written to memory at `addr`.
pub open spec fn mem8w(v: CpuView, addr: u16, data: u8) -> CpuView {
    CpuView { mem: v.mem.update(addr as int, data), ..v }
}

/// Two-byte little-endian read at `addr`; the high byte's address wraps.
pub open spec fn mem16(v: CpuView, addr: u16) -> u16 {
    combine(mem8(v, addr.wrapping_add(1)), mem8(v, addr))
}

/// Two-byte little-endian write at `addr`.
pub open spec fn mem16w(v: CpuView, addr: u16, data: u16) -> CpuView {
    mem8w(mem8w(v, addr, lo16(data)), addr.wrapping_add(1), hi16(data))
}

/// The stack-page address the stack pointer `sp` designates.
pub open spec fn stack_addr(sp: u8) -> u16 {
    (STACK_BASE + sp) as u16
}

/// Push: write at the stack pointer's slot, then move it down one (wrapping).
pub open spec fn push_sem(v: CpuView, data: u8) -> CpuView {
    CpuView { sp: v.sp.wrapping_sub(1), ..mem8w(v, stack_addr(v.sp), data) }
}

/// Pull: move the stack pointer up one (wrapping), then read its slot.
pub open spec fn pop_sem(v: CpuView) -> (CpuView, u8) {
    let sp2 = v.sp.wrapping_add(1);
    (CpuView { sp: sp2, ..v }, mem8(v, stack_addr(sp2)))
}

/// Push a 16-bit value, high byte first.
pub open spec fn push16_sem(v: CpuView, data: u16) -> CpuView {
    push_sem(push_sem(v, hi16(data)), lo16(data))
}

/// Pull a 16-bit value, low byte first.
pub open spec fn pop16_sem(v: CpuView) -> (CpuView, u16) {
    let lo = pop_sem(v);
    let hi = pop_sem(lo.0);
    (hi.0, combine(hi.1, lo.1))
}

/// Effective operand address for an addressing mode, with the program
/// counter already past the opcode byte. The no-operand mode is never
/// asked for an address; its value here is immaterial.
pub open spec fn operand_addr(v: CpuView, mode: AddressingMode) -> u16 {
    match mode {
        AddressingMode::Immediate => v.pc,
        AddressingMode::ZeroPage => mem8(v, v.pc) as u16,
        AddressingMode::ZeroPage_X => mem8(v, v.pc).wrapping_add(v.x) as u16,
        AddressingMode::ZeroPage_Y => mem8(v, v.pc).wrapping_add(v.y) as u16,
        AddressingMode::Absolute => mem16(v, v.pc),
        AddressingMode::Absolute_X => mem16(v, v.pc).wrapping_add(v.x as u16),
        AddressingMode::Absolute_Y => mem16(v, v.pc).wrapping_add(v.y as u16),
        AddressingMode::Indirect_X => {
            let ptr = mem8(v, v.pc).wrapping_add(v.x);
            combine(mem8(v, ptr.wrapping_add(1) as u16), mem8(v, ptr as u16))
        },
        AddressingMode::Indirect_Y => {
            let base = mem8(v, v.pc);
            let ptr = combine(mem8(v, base.wrapping_add(1) as u16), mem8(v, base as u16));
            ptr.wrapping_add(v.y as u16)
        },
        AddressingMode::NoneAddressing => v.pc,
    }
}

/// The operand byte an instruction reads.
pub open spec fn operand(v: CpuView, mode: AddressingMode) -> u8 {
    mem8(v, operand_addr(v, mode))
}

// ---------------------------------------------------------------------------
// Loads, stores, transfers
// ---------------------------------------------------------------------------
/// Load accumulator: store the operand and record Zero/Negative.
pub open spec fn lda_sem(v: CpuView, mode: AddressingMode) -> CpuView {
    let val = operand(v, mode);
    CpuView { a: val, status: with_zn(v.status, val), ..v }
}

/// Load X register.
pub open spec fn ldx_sem(v: CpuView, mode: AddressingMode) -> CpuView {
    let val = operand(v, mode);
    CpuView { x: val, status: with_zn(v.status, val), ..v }
}

/// Load Y register.
pub open spec fn ldy_sem(v: CpuView, mode: AddressingMode) -> CpuView {
    let val = operand(v, mode);
    CpuView { y: val, status: with_zn(v.status, val), ..v }
}

/// Store accumulator to memory; no flag effect.
pub open spec fn sta_sem(v: CpuView, mode: AddressingMode) -> CpuView {
    mem8w(v, operand_addr(v, mode), v.a)
}

/// Store X register to memory.
pub open spec fn stx_sem(v: CpuView, mode: AddressingMode) -> CpuView {
    mem8w(v, operand_addr(v, mode), v.x)
}

/// Store Y register to memory.
pub open spec fn sty_sem(v: CpuView, mode: AddressingMode) -> CpuView {
    mem8w(v, operand_addr(v, mode), v.y)
}

/// Transfer accumulator to X, recording Zero/Negative.
pub open spec fn tax_sem(v: CpuView) -> CpuView {
    CpuView { x: v.a, status: with_zn(v.status, v.a), ..v }
}

/// Transfer X to accumulator, recording Zero/Negative.
pub open spec fn txa_sem(v: CpuView) -> CpuView {
    CpuView { a: v.x, status: with_zn(v.status, v.x), ..v }
}

// ---------------------------------------------------------------------------
// Arithmetic
// ---------------------------------------------------------------------------
/// Widened sum of accumulator, addend and carry-in.
pub open spec fn adc_sum(a: u8, b: u8, c: bool) -> int {
    a + b + (if c {
        1int
    } else {
        0int
    })
}

/// Truncated add-with-carry result.
pub open spec fn adc_result(a: u8, b: u8, c: bool) -> u8 {
    (adc_sum(a, b, c) % 256) as u8
}

/// Carry-out of add-with-carry: the widened sum exceeded one byte.
pub open spec fn adc_carry(a: u8, b: u8, c: bool) -> bool {
    adc_sum(a, b, c) > 0xFF
}

/// Signed overflow of add-with-carry, by the two's-complement sign rule.
pub open spec fn adc_overflow(a: u8, b: u8, c: bool) -> bool {
    ((adc_result(a, b, c) ^ b) & (adc_result(a, b, c) ^ a) & 0x80) != 0
}

/// Common effect of add-with-carry on the state, for addend `b`.
pub open spec fn arith_sem(v: CpuView, b: u8) -> CpuView {
    let c = flag_set(v.status, FLAG_C);
    let r = adc_result(v.a, b, c);
    let s1 = with_flag(v.status, FLAG_C, adc_carry(v.a, b, c));
    let s2 = with_flag(s1, FLAG_V, adc_overflow(v.a, b, c));
    CpuView { a: r, status: with_zn(s2, r), ..v }
}

/// Add the operand with carry.
pub open spec fn adc_sem(v: CpuView, mode: AddressingMode) -> CpuView {
    arith_sem(v, operand(v, mode))
}

/// Subtract with carry: add the operand's one's complement with carry.
pub open spec fn sbc_sem(v: CpuView, mode: AddressingMode) -> CpuView {
    arith_sem(v, !operand(v, mode))
}

/// Increment or decrement targets share this flag treatment.
pub open spec fn inc_sem(v: CpuView, mode: AddressingMode) -> CpuView {
    let addr = operand_addr(v, mode);
    let r = mem8(v, addr).wrapping_add(1);
    let v2 = mem8w(v, addr, r);
    CpuView { status: with_zn(v2.status, r), ..v2 }
}

/// Decrement a memory byte, wrapping, recording Zero/Negative.
pub open spec fn dec_sem(v: CpuView, mode: AddressingMode) -> CpuView {
    let addr = operand_addr(v, mode);
    let r = mem8(v, addr).wrapping_sub(1);
    let v2 = mem8w(v, addr, r);
    CpuView { status: with_zn(v2.status, r), ..v2 }
}

/// Increment X, wrapping.
pub open spec fn inx_sem(v: CpuView) -> CpuView {
    let r = v.x.wrapping_add(1);
    CpuView { x: r, status: with_zn(v.status, r), ..v }
}

/// Increment Y, wrapping.
pub open spec fn iny_sem(v: CpuView) -> CpuView {
    let r = v.y.wrapping_add(1);
    CpuView { y: r, status: with_zn(v.status, r), ..v }
}

/// Decrement X, wrapping.
pub open spec fn dex_sem(v: CpuView) -> CpuView {
    let r = v.x.wrapping_sub(1);
    CpuView { x: r, status: with_zn(v.status, r), ..v }
}

/// Decrement Y, wrapping.
pub open spec fn dey_sem(v: CpuView) -> CpuView {
    let r = v.y.wrapping_sub(1);
    CpuView { y: r, status: with_zn(v.status, r), ..v }
}

// ---------------------------------------------------------------------------
// Logic, shifts, rotates, bit test, compares
// ---------------------------------------------------------------------------
/// Bitwise AND of accumulator and operand.
pub open spec fn and_sem(v: CpuView, mode: AddressingMode) -> CpuView {
    let r = v.a & operand(v, mode);
    CpuView { a: r, status: with_zn(v.status, r), ..v }
}

/// Bitwise exclusive OR of accumulator and operand.
pub open spec fn eor_sem(v: CpuView, mode: AddressingMode) -> CpuView {
    let r = v.a ^ operand(v, mode);
    CpuView { a: r, status: with_zn(v.status, r), ..v }
}

/// Bitwise inclusive OR of accumulator and operand.
pub open spec fn ora_sem(v: CpuView, mode: AddressingMode) -> CpuView {
    let r = v.a | operand(v, mode);
    CpuView { a: r, status: with_zn(v.status, r), ..v }
}

/// Rotate a byte left through the carry: carry-in becomes bit 0.
pub open spec fn rol8(val: u8, carry_in: bool) -> u8 {
    if carry_in {
        (val << 1) | 1
    } else {
        val << 1
    }
}

/// Rotate a byte right through the carry: carry-in becomes bit 7.
pub open spec fn ror8(val: u8, carry_in: bool) -> u8 {
    if carry_in {
        (val >> 1) | 0x80
    } else {
        val >> 1
    }
}

/// Arithmetic shift left of the accumulator: bit 7 moves into the carry.
pub open spec fn asl_a_sem(v: CpuView) -> CpuView {
    let r = v.a << 1;
    let s1 = with_flag(v.status, FLAG_C, v.a & 0x80 != 0);
    CpuView { a: r, status: with_zn(s1, r), ..v }
}

/// Arithmetic shift left of a memory byte.
pub open spec fn asl_sem(v: CpuView, mode: AddressingMode) -> CpuView {
    let addr = operand_addr(v, mode);
    let val = mem8(v, addr);
    let r = val << 1;
    let v2 = CpuView { status: with_flag(v.status, FLAG_C, val & 0x80 != 0), ..v };
    let v3 = mem8w(v2, addr, r);
    CpuView { status: with_zn(v3.status, r), ..v3 }
}

/// Logical shift right of the accumulator: bit 0 moves into the carry.
pub open spec fn lsr_a_sem(v: CpuView) -> CpuView {
    let r = v.a >> 1;
    let s1 = with_flag(v.status, FLAG_C, v.a & 1 != 0);
    CpuView { a: r, status: with_zn(s1, r), ..v }
}

/// Logical shift right of a memory byte.
pub open spec fn lsr_sem(v: CpuView, mode: AddressingMode) -> CpuView {
    let addr = operand_addr(v, mode);
    let val = mem8(v, addr);
    let r = val >> 1;
    let v2 = CpuView { status: with_flag(v.status, FLAG_C, val & 1 != 0), ..v };
    let v3 = mem8w(v2, addr, r);
    CpuView { status: with_zn(v3.status, r), ..v3 }
}

/// Rotate the accumulator left: bit 7 to carry, old carry to bit 0.
pub open spec fn rol_a_sem(v: CpuView) -> CpuView {
    let r = rol8(v.a, flag_set(v.status, FLAG_C));
    let s1 = with_flag(v.status, FLAG_C, v.a & 0x80 != 0);
    CpuView { a: r, status: with_zn(s1, r), ..v }
}

/// Rotate a memory byte left through the carry.
pub open spec fn rol_sem(v: CpuView, mode: AddressingMode) -> CpuView {
    let addr = operand_addr(v, mode);
    let val = mem8(v, addr);
    let r = rol8(val, flag_set(v.status, FLAG_C));
    let v2 = CpuView { status: with_flag(v.status, FLAG_C, val & 0x80 != 0), ..v };
    let v3 = mem8w(v2, addr, r);
    CpuView { status: with_zn(v3.status, r), ..v3 }
}

/// Rotate the accumulator right: bit 0 to carry, old carry to bit 7.
pub open spec fn ror_a_sem(v: CpuView) -> CpuView {
    let r = ror8(v.a, flag_set(v.status, FLAG_C));
    let s1 = with_flag(v.status, FLAG_C, v.a & 1 != 0);
    CpuView { a: r, status: with_zn(s1, r), ..v }
}

/// Rotate a memory byte right through the carry.
pub open spec fn ror_sem(v: CpuView, mode: AddressingMode) -> CpuView {
    let addr = operand_addr(v, mode);
    let val = mem8(v, addr);
    let r = ror8(val, flag_set(v.status, FLAG_C));
    let v2 = CpuView { status: with_flag(v.status, FLAG_C, val & 1 != 0), ..v };
    let v3 = mem8w(v2, addr, r);
    CpuView { status: with_zn(v3.status, r), ..v3 }
}

/// Bit test: Zero from accumulator AND operand, Overflow and Negative
/// copied from the operand's bits 6 and 7; the accumulator is untouched.
pub open spec fn bit_sem(v: CpuView, mode: AddressingMode) -> CpuView {
    let val = operand(v, mode);
    let s1 = with_flag(v.status, FLAG_Z, v.a & val == 0);
    let s2 = with_flag(s1, FLAG_V, val & 0x40 != 0);
    CpuView { status: with_flag(s2, FLAG_N, val & 0x80 != 0), ..v }
}

/// Compare a register against the operand without storing the difference.
pub open spec fn compare_sem(v: CpuView, mode: AddressingMode, reg: u8) -> CpuView {
    let val = operand(v, mode);
    let s1 = with_flag(v.status, FLAG_Z, reg == val);
    let s2 = with_flag(s1, FLAG_C, reg >= val);
    CpuView { status: with_flag(s2, FLAG_N, reg.wrapping_sub(val) & 0x80 != 0), ..v }
}

/// Compare the accumulator.
pub open spec fn cmp_sem(v: CpuView, mode: AddressingMode) -> CpuView {
    compare_sem(v, mode, v.a)
}

/// Compare the X register.
pub open spec fn cpx_sem(v: CpuView, mode: AddressingMode) -> CpuView {
    compare_sem(v, mode, v.x)
}

/// Compare the Y register.
pub open spec fn cpy_sem(v: CpuView, mode: AddressingMode) -> CpuView {
    compare_sem(v, mode, v.y)
}

// ---------------------------------------------------------------------------
// Control flow and stack
// ---------------------------------------------------------------------------
/// A displacement byte read as a signed offset, as a 16-bit wrap addend.
pub open spec fn sign_ext(d: u8) -> u16 {
    if d >= 0x80 {
        (d + 0xFF00) as u16
    } else {
        d as u16
    }
}

/// Conditional branch: when taken, the signed displacement is added to
/// the program counter already advanced past the whole instruction;
/// when not taken, the counter just advances past the displacement byte.
pub open spec fn branch_sem(v: CpuView, cond: bool) -> CpuView {
    if cond {
        CpuView { pc: v.pc.wrapping_add(1).wrapping_add(sign_ext(mem8(v, v.pc))), ..v }
    } else {
        CpuView { pc: v.pc.wrapping_add(1), ..v }
    }
}

/// Absolute jump.
pub open spec fn jmp_abs_sem(v: CpuView) -> CpuView {
    CpuView { pc: mem16(v, v.pc), ..v }
}

/// Indirect jump, with the page-boundary quirk: a pointer whose low byte
/// is 0xFF takes its target's high byte from the start of the same page.
pub open spec fn jmp_ind_sem(v: CpuView) -> CpuView {
    let ptr = mem16(v, v.pc);
    let target = if ptr & 0x00FF == 0x00FF {
        combine(mem8(v, ptr & 0xFF00), mem8(v, ptr))
    } else {
        mem16(v, ptr)
    };
    CpuView { pc: target, ..v }
}

/// Subroutine call: push the address of the call's last byte, then jump.
pub open spec fn jsr_sem(v: CpuView) -> CpuView {
    let v2 = push16_sem(v, v.pc.wrapping_add(1));
    CpuView { pc: mem16(v2, v.pc), ..v2 }
}

/// Subroutine return: pull an address and resume one byte past it.
pub open spec fn rts_sem(v: CpuView) -> CpuView {
    let p = pop16_sem(v);
    CpuView { pc: p.1.wrapping_add(1), ..p.0 }
}

/// Return from interrupt: pull the status byte, then the return address.
pub open spec fn rti_sem(v: CpuView) -> CpuView {
    let p = pop_sem(v);
    let v2 = CpuView { status: p.1, ..p.0 };
    let q = pop16_sem(v2);
    CpuView { pc: q.1, ..q.0 }
}

/// Push the accumulator.
pub open spec fn pha_sem(v: CpuView) -> CpuView {
    push_sem(v, v.a)
}

/// Push the status byte verbatim.
pub open spec fn php_sem(v: CpuView) -> CpuView {
    push_sem(v, v.status)
}

/// Pull the accumulator; no flag effect.
pub open spec fn pla_sem(v: CpuView) -> CpuView {
    let p = pop_sem(v);
    CpuView { a: p.1, ..p.0 }
}

/// Pull the status byte verbatim.
pub open spec fn plp_sem(v: CpuView) -> CpuView {
    let p = pop_sem(v);
    CpuView { status: p.1, ..p.0 }
}

// ---------------------------------------------------------------------------
// One whole step
// ---------------------------------------------------------------------------
/// The state change of an instruction's semantic action, dispatched on
/// the opcode, for a view already past the opcode byte. The halt opcode
/// and bytes outside the table are handled by `step_sem` and never reach
/// the default arm.
pub open spec fn exec_sem(v: CpuView, code: u8, mode: AddressingMode) -> CpuView {
    match code {
        0xA9 | 0xA5 | 0xB5 | 0xAD | 0xBD | 0xB9 | 0xA1 | 0xB1 => lda_sem(v, mode),
        0xA2 | 0xA6 | 0xB6 | 0xAE | 0xBE => ldx_sem(v, mode),
        0xA0 | 0xA4 | 0xB4 | 0xAC | 0xBC => ldy_sem(v, mode),
        0x85 | 0x95 | 0x8D | 0x9D | 0x99 | 0x81 | 0x91 => sta_sem(v, mode),
        0x86 | 0x96 | 0x8E => stx_sem(v, mode),
        0x84 | 0x94 | 0x8C => sty_sem(v, mode),
        0x69 | 0x65 | 0x75 | 0x6D | 0x7D | 0x79 | 0x61 | 0x71 => adc_sem(v, mode),
        0xE9 | 0xE5 | 0xF5 | 0xED | 0xFD | 0xF9 | 0xE1 | 0xF1 => sbc_sem(v, mode),
        0x29 | 0x25 | 0x35 | 0x2D | 0x3D | 0x39 | 0x21 | 0x31 => and_sem(v, mode),
        0x49 | 0x45 | 0x55 | 0x4D | 0x5D | 0x59 | 0x41 | 0x51 => eor_sem(v, mode),
        0x09 | 0x05 | 0x15 | 0x0D | 0x1D | 0x19 | 0x01 | 0x11 => ora_sem(v, mode),
        0x0A => asl_a_sem(v),
        0x06 | 0x16 | 0x0E | 0x1E => asl_sem(v, mode),
        0x4A => lsr_a_sem(v),
        0x46 | 0x56 | 0x4E | 0x5E => lsr_sem(v, mode),
        0x2A => rol_a_sem(v),
        0x26 | 0x36 | 0x2E | 0x3E => rol_sem(v, mode),
        0x6A => ror_a_sem(v),
        0x66 | 0x76 | 0x6E | 0x7E => ror_sem(v, mode),
        0x90 => branch_sem(v, !flag_set(v.status, FLAG_C)),
        0xB0 => branch_sem(v, flag_set(v.status, FLAG_C)),
        0xF0 => branch_sem(v, flag_set(v.status, FLAG_Z)),
        0xD0 => branch_sem(v, !flag_set(v.status, FLAG_Z)),
        0x30 => branch_sem(v, flag_set(v.status, FLAG_N)),
        0x10 => branch_sem(v, !flag_set(v.status, FLAG_N)),
        0x50 => branch_sem(v, !flag_set(v.status, FLAG_V)),
        0x70 => branch_sem(v, flag_set(v.status, FLAG_V)),
        0x24 | 0x2C => bit_sem(v, mode),
        0xC9 | 0xC5 | 0xD5 | 0xCD | 0xDD | 0xD9 | 0xC1 | 0xD1 => cmp_sem(v, mode),
        0xE0 | 0xE4 | 0xEC => cpx_sem(v, mode),
        0xC0 | 0xC4 | 0xCC => cpy_sem(v, mode),
        0xC6 | 0xD6 | 0xCE | 0xDE => dec_sem(v, mode),
        0xE6 | 0xF6 | 0xEE | 0xFE => inc_sem(v, mode),
        0xCA => dex_sem(v),
        0x88 => dey_sem(v),
        0xE8 => inx_sem(v),
        0xC8 => iny_sem(v),
        0x18 => CpuView { status: with_flag(v.status, FLAG_C, false), ..v },
        0xD8 => CpuView { status: with_flag(v.status, crate::flags::FLAG_D, false), ..v },
        0x58 => CpuView { status: with_flag(v.status, crate::flags::FLAG_I, false), ..v },
        0x38 => CpuView { status: with_flag(v.status, FLAG_C, true), ..v },
        0xF8 => CpuView { status: with_flag(v.status, crate::flags::FLAG_D, true), ..v },
        0x78 => CpuView { status: with_flag(v.status, crate::flags::FLAG_I, true), ..v },
        0xAA => tax_sem(v),
        0x8A => txa_sem(v),
        0x20 => jsr_sem(v),
        0x4C => jmp_abs_sem(v),
        0x6C => jmp_ind_sem(v),
        0x40 => rti_sem(v),
        0x60 => rts_sem(v),
        0x48 => pha_sem(v),
        0x08 => php_sem(v),
        0x68 => pla_sem(v),
        0x28 => plp_sem(v),
        _ => v,
    }
}

/// Opcodes whose semantic action sets the program counter itself: the
/// eight branches, both jumps, the subroutine call and both returns.
/// Every other instruction leaves the counter to the engine.
pub open spec fn jumps(code: u8) -> bool {
    match code {
        0x90 | 0xB0 | 0xF0 | 0xD0 | 0x30 | 0x10 | 0x50 | 0x70 | 0x20 | 0x4C | 0x6C | 0x40
        | 0x60 => true,
        _ => false,
    }
}

/// One whole fetch-decode-execute step: fetch the opcode, advance past
/// it, decode, run the semantic action, and, for the instruction
/// classes that leave the program counter to the engine, advance it
/// over the operand bytes.
pub open spec fn step_sem(v: CpuView) -> (CpuView, StepOutcome) {
    let code = mem8(v, v.pc);
    let v1 = CpuView { pc: v.pc.wrapping_add(1), ..v };
    match spec_decode(code) {
        Option::None => (v1, StepOutcome::Faulted),
        Option::Some(op) => {
            if code == 0x00 {
                (v1, StepOutcome::Halted)
            } else {
                let v2 = exec_sem(v1, code, op.mode);
                let v3 = if jumps(code) {
                    v2
                } else {
                    CpuView { pc: v2.pc.wrapping_add((op.len - 1) as u16), ..v2 }
                };
                (v3, StepOutcome::Running)
            }
        },
    }
}

/// The state after `n` whole steps.
pub open spec fn run_sem(v: CpuView, n: nat) -> CpuView
    decreases n,
{
    if n == 0 {
        v
    } else {
        step_sem(run_sem(v, (n - 1) as nat)).0
    }
}

/// How the step taken from the state after `n` steps ends.
pub open spec fn outcome_at(v: CpuView, n: nat) -> StepOutcome {
    step_sem(run_sem(v, n)).1
}

/// Execution from `v` runs `n` ordinary steps, then a step ending in
/// `o`, and leaves the machine in `fin`.
pub open spec fn runs_until(v: CpuView, n: nat, fin: CpuView, o: StepOutcome) -> bool {
    &&& forall|k: nat| k < n ==> outcome_at(v, k) == StepOutcome::Running
    &&& outcome_at(v, n) == o
    &&& fin == run_sem(v, (n + 1) as nat)
}

// ---------------------------------------------------------------------------
// Construction, reset, program load
// ---------------------------------------------------------------------------
/// The zeroed power-on state.
pub open spec fn initial() -> CpuView {
    CpuView {
        pc: 0,
        a: 0,
        x: 0,
        y: 0,
        sp: STACK_RESET,
        status: 0,
        mem: Seq::new(MEM_SIZE as nat, |i: int| 0u8),
    }
}

/// Reset: clear accumulator, X and flags, restore the stack pointer to
/// its power-on offset, and reload the program counter from the reset
/// vector. Memory and the Y register are untouched.
pub open spec fn reset_sem(v: CpuView) -> CpuView {
    CpuView { a: 0, x: 0, status: 0, sp: STACK_RESET, pc: mem16(v, RESET_VECTOR), ..v }
}

/// Program load: the image copied to the load window and the window's
/// start written as the little-endian reset vector; all else untouched.
pub open spec fn load_sem(v: CpuView, p: Seq<u8>) -> CpuView {
    CpuView {
        mem: Seq::new(
            MEM_SIZE as nat,
            |k: int|
                if k == RESET_VECTOR {
                    lo16(LOAD_BASE)
                } else if k == RESET_VECTOR + 1 {
                    hi16(LOAD_BASE)
                } else if LOAD_BASE <= k < LOAD_BASE + p.len() {
                    p[k - LOAD_BASE]
                } else {
                    v.mem[k]
                },
        ),
        ..v
    }
}

} // verus!
