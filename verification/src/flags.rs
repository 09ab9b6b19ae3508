//! The processor status register: one bit per condition flag.
//!
//! Each flag lives at a fixed bit of an 8-bit status byte. Instructions
//! update flags through `set_flag` / `with_zn`; contracts read them back
//! through the spec function `flag_set`.

use vstd::prelude::*;

verus! {

/// Carry flag, bit 0 of the status byte.
pub const FLAG_C: u8 = 0x01;

/// Zero flag, bit 1 of the status byte.
pub const FLAG_Z: u8 = 0x02;

/// Interrupt-disable flag, bit 2 of the status byte.
pub const FLAG_I: u8 = 0x04;

/// Decimal flag, bit 3 of the status byte.
pub const FLAG_D: u8 = 0x08;

/// Overflow flag, bit 6 of the status byte.
pub const FLAG_V: u8 = 0x40;

/// Negative flag, bit 7 of the status byte.
pub const FLAG_N: u8 = 0x80;

/// Whether the flag selected by `mask` is set in status byte `s`.
pub open spec fn flag_set(s: u8, mask: u8) -> bool {
    s & mask != 0
}

/// The status byte `s` with the flag selected by `mask` forced to `on`.
pub open spec fn with_flag(s: u8, mask: u8, on: bool) -> u8 {
    if on {
        s | mask
    } else {
        s & !mask
    }
}

/// The status byte after an instruction stored `val` in a register:
/// the Zero flag records whether `val` is zero, the Negative flag records
/// bit 7 of `val`, every other flag keeps its value.
pub open spec fn with_zn(s: u8, val: u8) -> u8 {
    with_flag(with_flag(s, FLAG_Z, val == 0), FLAG_N, val & 0x80 != 0)
}

/// Forces the flag selected by `mask` on or off.
pub fn set_flag(s: u8, mask: u8, on: bool) -> (r: u8)
    ensures
        r == with_flag(s, mask, on),
{
    if on {
        s | mask
    } else {
        s & !mask
    }
}

/// Whether the flag selected by `mask` is set.
pub fn get_flag(s: u8, mask: u8) -> (r: bool)
    ensures
        r == flag_set(s, mask),
{
    (s & mask) != 0
}

/// Writing one flag reads back as written, and leaves every flag under a
/// disjoint mask untouched.
pub proof fn lemma_with_flag(s: u8, mask: u8, on: bool, other: u8)
    ensures
        mask != 0 ==> flag_set(with_flag(s, mask, on), mask) == on,
        other & mask == 0 ==> (with_flag(s, mask, on) & other) == (s & other),
{
    if on {
        assert(mask != 0 ==> ((s | mask) & mask) != 0) by (bit_vector);
        assert(other & mask == 0 ==> ((s | mask) & other) == (s & other)) by (bit_vector);
    } else {
        assert(((s & !mask) & mask) == 0) by (bit_vector);
        assert(other & mask == 0 ==> ((s & !mask) & other) == (s & other)) by (bit_vector);
    }
}

/// A Zero/Negative update records exactly the stored value's zeroness and
/// top bit, and leaves every flag outside those two untouched.
pub proof fn lemma_with_zn(s: u8, val: u8)
    ensures
        flag_set(with_zn(s, val), FLAG_Z) == (val == 0),
        flag_set(with_zn(s, val), FLAG_N) == (val & 0x80 != 0),
        forall|m: u8|
            m & (FLAG_Z | FLAG_N) == 0 ==> #[trigger] (with_zn(s, val) & m) == (s & m),
{
    let s1 = with_flag(s, FLAG_Z, val == 0);
    assert(0x02u8 & 0x80u8 == 0) by (bit_vector);
    lemma_with_flag(s, FLAG_Z, val == 0, FLAG_Z);
    lemma_with_flag(s1, FLAG_N, val & 0x80 != 0, FLAG_Z);
    lemma_with_flag(s1, FLAG_N, val & 0x80 != 0, FLAG_N);
    assert forall|m: u8| m & (FLAG_Z | FLAG_N) == 0 implies #[trigger] (with_zn(s, val) & m) == (
    s & m) by {
        assert(m & (0x02u8 | 0x80u8) == 0 ==> m & 0x02u8 == 0 && m & 0x80u8 == 0) by (bit_vector);
        lemma_with_flag(s, FLAG_Z, val == 0, m);
        lemma_with_flag(s1, FLAG_N, val & 0x80 != 0, m);
    }
}

} // verus!
