//! Proved laws of the instruction semantics: properties that hold for
//! every register value, operand and machine state.

use vstd::prelude::*;

use crate::flags;
use crate::flags::{flag_set, with_flag, with_zn, FLAG_C, FLAG_N, FLAG_Z};
use crate::opcode::AddressingMode;
use crate::sem::{
    adc_carry, adc_overflow, adc_result, arith_sem, cmp_sem, compare_sem, cpx_sem, cpy_sem,
    lda_sem, ldx_sem, ldy_sem, operand, pha_sem, php_sem, pla_sem, plp_sem, rol8, rol_a_sem, ror8,
    ror_a_sem, CpuView,
};

verus! {

/// After a load instruction stores a value in its register, the Zero
/// flag records whether that value is zero and the Negative flag
/// records its bit 7 — for every value, addressing mode and starting
/// state. The loaded value is the operand byte; every other register,
/// all of memory and every flag outside Zero and Negative keep their
/// values.
pub proof fn lemma_load_sets_zero_and_negative(v: CpuView, mode: AddressingMode)
    ensures
        ({
            let v2 = lda_sem(v, mode);
            v2.a == operand(v, mode) && v2.x == v.x && v2.y == v.y && v2.sp == v.sp && v2.pc
                == v.pc && v2.mem == v.mem && flag_set(v2.status, FLAG_Z) == (v2.a == 0)
                && flag_set(v2.status, FLAG_N) == (v2.a & 0x80 != 0)
        }),
        ({
            let v2 = ldx_sem(v, mode);
            v2.x == operand(v, mode) && v2.a == v.a && v2.y == v.y && v2.sp == v.sp && v2.pc
                == v.pc && v2.mem == v.mem && flag_set(v2.status, FLAG_Z) == (v2.x == 0)
                && flag_set(v2.status, FLAG_N) == (v2.x & 0x80 != 0)
        }),
        ({
            let v2 = ldy_sem(v, mode);
            v2.y == operand(v, mode) && v2.a == v.a && v2.x == v.x && v2.sp == v.sp && v2.pc
                == v.pc && v2.mem == v.mem && flag_set(v2.status, FLAG_Z) == (v2.y == 0)
                && flag_set(v2.status, FLAG_N) == (v2.y & 0x80 != 0)
        }),
        forall|m: u8|
            m & (FLAG_Z | FLAG_N) == 0 ==> #[trigger] (lda_sem(v, mode).status & m) == (v.status
                & m) && (ldx_sem(v, mode).status & m) == (v.status & m) && (ldy_sem(
                v,
                mode,
            ).status & m) == (v.status & m),
{
    flags::lemma_with_zn(v.status, operand(v, mode));
    assert forall|m: u8| m & (FLAG_Z | FLAG_N) == 0 implies #[trigger] (lda_sem(
        v,
        mode,
    ).status & m) == (v.status & m) && (ldx_sem(v, mode).status & m) == (v.status & m) && (
    ldy_sem(v, mode).status & m) == (v.status & m) by {
        assert((with_zn(v.status, operand(v, mode)) & m) == (v.status & m));
    }
}

/// Add-with-carry with a clear carry-in is commutative in its two
/// operands: the result byte, the carry-out and the signed overflow all
/// agree when the addends swap.
pub proof fn lemma_adc_commutative(a: u8, b: u8)
    ensures
        adc_result(a, b, false) == adc_result(b, a, false),
        adc_carry(a, b, false) == adc_carry(b, a, false),
        adc_overflow(a, b, false) == adc_overflow(b, a, false),
{
    let r = adc_result(a, b, false);
    assert(((r ^ b) & (r ^ a) & 0x80) == ((r ^ a) & (r ^ b) & 0x80)) by (bit_vector);
}

/// The whole add-with-carry transition agrees when the accumulator and
/// the addend swap, provided the carry-in is clear: the same result
/// byte and the same status byte come out.
pub proof fn lemma_arith_sem_commutative(v: CpuView, b: u8)
    requires
        !flag_set(v.status, FLAG_C),
    ensures
        arith_sem(v, b).a == arith_sem((CpuView { a: b, ..v }), v.a).a,
        arith_sem(v, b).status == arith_sem((CpuView { a: b, ..v }), v.a).status,
{
    lemma_adc_commutative(v.a, b);
}

/// Pushing the accumulator and pulling it back, or pushing the status
/// byte and pulling it back, restores the exact byte — every one of the
/// 256 values, unused status bits included — and the stack pointer.
pub proof fn lemma_push_pull_round_trip(v: CpuView)
    requires
        v.inv(),
    ensures
        pla_sem(pha_sem(v)).a == v.a,
        pla_sem(pha_sem(v)).sp == v.sp,
        pla_sem(pha_sem(v)).status == v.status,
        pla_sem(pha_sem(v)).pc == v.pc,
        pla_sem(pha_sem(v)).x == v.x,
        pla_sem(pha_sem(v)).y == v.y,
        pla_sem(pha_sem(v)).mem == pha_sem(v).mem,
        plp_sem(php_sem(v)).status == v.status,
        plp_sem(php_sem(v)).sp == v.sp,
        plp_sem(php_sem(v)).a == v.a,
        plp_sem(php_sem(v)).pc == v.pc,
        plp_sem(php_sem(v)).x == v.x,
        plp_sem(php_sem(v)).y == v.y,
        plp_sem(php_sem(v)).mem == php_sem(v).mem,
{
}

/// Compare updates only the status byte: the compared register — and
/// every other register and all of memory — is left unchanged, while
/// the Carry flag records an unsigned greater-or-equal, the Zero flag
/// records equality with the operand, the Negative flag records bit 7
/// of the wrapped difference, and every flag outside those three keeps
/// its value.
pub proof fn lemma_compare_preserves_register(v: CpuView, mode: AddressingMode, reg: u8)
    ensures
        compare_sem(v, mode, reg).a == v.a,
        compare_sem(v, mode, reg).x == v.x,
        compare_sem(v, mode, reg).y == v.y,
        compare_sem(v, mode, reg).sp == v.sp,
        compare_sem(v, mode, reg).pc == v.pc,
        compare_sem(v, mode, reg).mem == v.mem,
        flag_set(compare_sem(v, mode, reg).status, FLAG_C) == (reg >= operand(v, mode)),
        flag_set(compare_sem(v, mode, reg).status, FLAG_Z) == (reg == operand(v, mode)),
        flag_set(compare_sem(v, mode, reg).status, FLAG_N) == (reg.wrapping_sub(operand(v, mode))
            & 0x80 != 0),
        forall|m: u8|
            m & (FLAG_Z | FLAG_C | FLAG_N) == 0 ==> #[trigger] (compare_sem(v, mode, reg).status
                & m) == (v.status & m),
        cmp_sem(v, mode) == compare_sem(v, mode, v.a),
        cpx_sem(v, mode) == compare_sem(v, mode, v.x),
        cpy_sem(v, mode) == compare_sem(v, mode, v.y),
{
    let val = operand(v, mode);
    let s1 = with_flag(v.status, FLAG_Z, reg == val);
    let s2 = with_flag(s1, FLAG_C, reg >= val);
    let nc = reg.wrapping_sub(val) & 0x80 != 0;
    assert(0x01u8 & 0x80u8 == 0 && 0x02u8 & 0x01u8 == 0 && 0x02u8 & 0x80u8 == 0) by (bit_vector);
    flags::lemma_with_flag(s1, FLAG_C, reg >= val, FLAG_C);
    flags::lemma_with_flag(s2, FLAG_N, nc, FLAG_C);
    flags::lemma_with_flag(v.status, FLAG_Z, reg == val, FLAG_Z);
    flags::lemma_with_flag(s1, FLAG_C, reg >= val, FLAG_Z);
    flags::lemma_with_flag(s2, FLAG_N, nc, FLAG_Z);
    flags::lemma_with_flag(s2, FLAG_N, nc, FLAG_N);
    assert forall|m: u8| m & (FLAG_Z | FLAG_C | FLAG_N) == 0 implies #[trigger] (compare_sem(
        v,
        mode,
        reg,
    ).status & m) == (v.status & m) by {
        assert(m & (0x02u8 | 0x01u8 | 0x80u8) == 0 ==> m & 0x02u8 == 0 && m & 0x01u8 == 0 && m
            & 0x80u8 == 0) by (bit_vector);
        flags::lemma_with_flag(v.status, FLAG_Z, reg == val, m);
        flags::lemma_with_flag(s1, FLAG_C, reg >= val, m);
        flags::lemma_with_flag(s2, FLAG_N, nc, m);
    }
}

/// Rotating the accumulator left and then right — or right and then
/// left — through the carry restores the original accumulator and the
/// original Carry flag, for every byte and either starting carry.
pub proof fn lemma_rotate_round_trip(v: CpuView)
    ensures
        ror_a_sem(rol_a_sem(v)).a == v.a,
        flag_set(ror_a_sem(rol_a_sem(v)).status, FLAG_C) == flag_set(v.status, FLAG_C),
        rol_a_sem(ror_a_sem(v)).a == v.a,
        flag_set(rol_a_sem(ror_a_sem(v)).status, FLAG_C) == flag_set(v.status, FLAG_C),
{
    let a = v.a;
    let c0 = flag_set(v.status, FLAG_C);
    assert(0x01u8 & (0x02u8 | 0x80u8) == 0 && 0x01u8 != 0) by (bit_vector);
    // Left, then right.
    let r1 = rol8(a, c0);
    let s1 = with_flag(v.status, FLAG_C, a & 0x80 != 0);
    flags::lemma_with_flag(v.status, FLAG_C, a & 0x80 != 0, FLAG_C);
    flags::lemma_with_zn(s1, r1);
    // Carry seen by the right rotation is the bit the left one shifted out.
    assert(flag_set(rol_a_sem(v).status, FLAG_C) == (a & 0x80 != 0));
    if c0 {
        assert((((a << 1) | 1) & 1) != 0) by (bit_vector);
        assert(a & 0x80 != 0 ==> ((((a << 1) | 1) >> 1) | 0x80) == a) by (bit_vector);
        assert(a & 0x80 == 0 ==> (((a << 1) | 1) >> 1) == a) by (bit_vector);
    } else {
        assert(((a << 1) & 1) == 0) by (bit_vector);
        assert(a & 0x80 != 0 ==> (((a << 1) >> 1) | 0x80) == a) by (bit_vector);
        assert(a & 0x80 == 0 ==> ((a << 1) >> 1) == a) by (bit_vector);
    }
    let v1 = rol_a_sem(v);
    let s2 = with_flag(v1.status, FLAG_C, r1 & 1 != 0);
    flags::lemma_with_flag(v1.status, FLAG_C, r1 & 1 != 0, FLAG_C);
    flags::lemma_with_zn(s2, ror8(r1, a & 0x80 != 0));
    // Right, then left.
    let q1 = ror8(a, c0);
    let t1 = with_flag(v.status, FLAG_C, a & 1 != 0);
    flags::lemma_with_flag(v.status, FLAG_C, a & 1 != 0, FLAG_C);
    flags::lemma_with_zn(t1, q1);
    assert(flag_set(ror_a_sem(v).status, FLAG_C) == (a & 1 != 0));
    if c0 {
        assert((((a >> 1) | 0x80) & 0x80) != 0) by (bit_vector);
        assert(a & 1 != 0 ==> ((((a >> 1) | 0x80) << 1) | 1) == a) by (bit_vector);
        assert(a & 1 == 0 ==> (((a >> 1) | 0x80) << 1) == a) by (bit_vector);
    } else {
        assert(((a >> 1) & 0x80) == 0) by (bit_vector);
        assert(a & 1 != 0 ==> (((a >> 1) << 1) | 1) == a) by (bit_vector);
        assert(a & 1 == 0 ==> ((a >> 1) << 1) == a) by (bit_vector);
    }
    let w1 = ror_a_sem(v);
    let t2 = with_flag(w1.status, FLAG_C, q1 & 0x80 != 0);
    flags::lemma_with_flag(w1.status, FLAG_C, q1 & 0x80 != 0, FLAG_C);
    flags::lemma_with_zn(t2, rol8(q1, a & 1 != 0));
}

} // verus!
