//! The opcode table: a read-only mapping from a one-byte opcode to its
//! addressing mode and whole-instruction byte length.
//!
//! Only the documented instruction set is present; looking up any other
//! byte yields `None`, which the engine reports as a decode fault.

use vstd::prelude::*;

verus! {

/// How an instruction finds its operand.
#[allow(non_camel_case_types)]
#[derive(Debug, Clone, Copy)]
pub enum AddressingMode {
    Immediate,
    ZeroPage,
    ZeroPage_X,
    ZeroPage_Y,
    Absolute,
    Absolute_X,
    Absolute_Y,
    Indirect_X,
    Indirect_Y,
    NoneAddressing,
}

/// One opcode-table entry: the addressing mode and the instruction's
/// total length in bytes, opcode byte included.
#[derive(Debug, Clone, Copy)]
pub struct OpInfo {
    pub mode: AddressingMode,
    pub len: u8,
}

/// The opcode table as a mathematical function.
pub open spec fn spec_decode(code: u8) -> Option<OpInfo> {
    match code {
        0xA9 | 0xA2 | 0xA0 | 0x69 | 0xE9 | 0x29 | 0x49 | 0x09 | 0xC9 | 0xE0 | 0xC0 => Some(
            OpInfo { mode: AddressingMode::Immediate, len: 2 },
        ),
        0xA5 | 0xA6 | 0xA4 | 0x85 | 0x86 | 0x84 | 0x65 | 0xE5 | 0x25 | 0x45 | 0x05 | 0x06 | 0x46
        | 0x26 | 0x66 | 0x24 | 0xC5 | 0xE4 | 0xC4 | 0xC6 | 0xE6 => Some(
            OpInfo { mode: AddressingMode::ZeroPage, len: 2 },
        ),
        0xB5 | 0xB4 | 0x95 | 0x94 | 0x75 | 0xF5 | 0x35 | 0x55 | 0x15 | 0x16 | 0x56 | 0x36 | 0x76
        | 0xD5 | 0xD6 | 0xF6 => Some(OpInfo { mode: AddressingMode::ZeroPage_X, len: 2 }),
        0xB6 | 0x96 => Some(OpInfo { mode: AddressingMode::ZeroPage_Y, len: 2 }),
        0xAD | 0xAE | 0xAC | 0x8D | 0x8E | 0x8C | 0x6D | 0xED | 0x2D | 0x4D | 0x0D | 0x0E | 0x4E
        | 0x2E | 0x6E | 0x2C | 0xCD | 0xEC | 0xCC | 0xCE | 0xEE => Some(
            OpInfo { mode: AddressingMode::Absolute, len: 3 },
        ),
        0xBD | 0xBC | 0x9D | 0x7D | 0xFD | 0x3D | 0x5D | 0x1D | 0x1E | 0x5E | 0x3E | 0x7E | 0xDD
        | 0xDE | 0xFE => Some(OpInfo { mode: AddressingMode::Absolute_X, len: 3 }),
        0xB9 | 0xBE | 0x99 | 0x79 | 0xF9 | 0x39 | 0x59 | 0x19 | 0xD9 => Some(
            OpInfo { mode: AddressingMode::Absolute_Y, len: 3 },
        ),
        0xA1 | 0x81 | 0x61 | 0xE1 | 0x21 | 0x41 | 0x01 | 0xC1 => Some(
            OpInfo { mode: AddressingMode::Indirect_X, len: 2 },
        ),
        0xB1 | 0x91 | 0x71 | 0xF1 | 0x31 | 0x51 | 0x11 | 0xD1 => Some(
            OpInfo { mode: AddressingMode::Indirect_Y, len: 2 },
        ),
        0x0A | 0x4A | 0x2A | 0x6A | 0xCA | 0x88 | 0xE8 | 0xC8 | 0x18 | 0xD8 | 0x58 | 0x38 | 0xF8
        | 0x78 | 0xAA | 0x8A | 0x40 | 0x60 | 0x48 | 0x08 | 0x68 | 0x28 | 0xEA | 0x00 => Some(
            OpInfo { mode: AddressingMode::NoneAddressing, len: 1 },
        ),
        0x90 | 0xB0 | 0xF0 | 0xD0 | 0x30 | 0x10 | 0x50 | 0x70 => Some(
            OpInfo { mode: AddressingMode::NoneAddressing, len: 2 },
        ),
        0x20 | 0x4C | 0x6C => Some(OpInfo { mode: AddressingMode::NoneAddressing, len: 3 }),
        _ => None,
    }
}

/// Looks an opcode up in the table.
pub fn decode(code: u8) -> (r: Option<OpInfo>)
    ensures
        r == spec_decode(code),
{
    match code {
        0xA9 | 0xA2 | 0xA0 | 0x69 | 0xE9 | 0x29 | 0x49 | 0x09 | 0xC9 | 0xE0 | 0xC0 => Some(
            OpInfo { mode: AddressingMode::Immediate, len: 2 },
        ),
        0xA5 | 0xA6 | 0xA4 | 0x85 | 0x86 | 0x84 | 0x65 | 0xE5 | 0x25 | 0x45 | 0x05 | 0x06 | 0x46
        | 0x26 | 0x66 | 0x24 | 0xC5 | 0xE4 | 0xC4 | 0xC6 | 0xE6 => Some(
            OpInfo { mode: AddressingMode::ZeroPage, len: 2 },
        ),
        0xB5 | 0xB4 | 0x95 | 0x94 | 0x75 | 0xF5 | 0x35 | 0x55 | 0x15 | 0x16 | 0x56 | 0x36 | 0x76
        | 0xD5 | 0xD6 | 0xF6 => Some(OpInfo { mode: AddressingMode::ZeroPage_X, len: 2 }),
        0xB6 | 0x96 => Some(OpInfo { mode: AddressingMode::ZeroPage_Y, len: 2 }),
        0xAD | 0xAE | 0xAC | 0x8D | 0x8E | 0x8C | 0x6D | 0xED | 0x2D | 0x4D | 0x0D | 0x0E | 0x4E
        | 0x2E | 0x6E | 0x2C | 0xCD | 0xEC | 0xCC | 0xCE | 0xEE => Some(
            OpInfo { mode: AddressingMode::Absolute, len: 3 },
        ),
        0xBD | 0xBC | 0x9D | 0x7D | 0xFD | 0x3D | 0x5D | 0x1D | 0x1E | 0x5E | 0x3E | 0x7E | 0xDD
        | 0xDE | 0xFE => Some(OpInfo { mode: AddressingMode::Absolute_X, len: 3 }),
        0xB9 | 0xBE | 0x99 | 0x79 | 0xF9 | 0x39 | 0x59 | 0x19 | 0xD9 => Some(
            OpInfo { mode: AddressingMode::Absolute_Y, len: 3 },
        ),
        0xA1 | 0x81 | 0x61 | 0xE1 | 0x21 | 0x41 | 0x01 | 0xC1 => Some(
            OpInfo { mode: AddressingMode::Indirect_X, len: 2 },
        ),
        0xB1 | 0x91 | 0x71 | 0xF1 | 0x31 | 0x51 | 0x11 | 0xD1 => Some(
            OpInfo { mode: AddressingMode::Indirect_Y, len: 2 },
        ),
        0x0A | 0x4A | 0x2A | 0x6A | 0xCA | 0x88 | 0xE8 | 0xC8 | 0x18 | 0xD8 | 0x58 | 0x38 | 0xF8
        | 0x78 | 0xAA | 0x8A | 0x40 | 0x60 | 0x48 | 0x08 | 0x68 | 0x28 | 0xEA | 0x00 => Some(
            OpInfo { mode: AddressingMode::NoneAddressing, len: 1 },
        ),
        0x90 | 0xB0 | 0xF0 | 0xD0 | 0x30 | 0x10 | 0x50 | 0x70 => Some(
            OpInfo { mode: AddressingMode::NoneAddressing, len: 2 },
        ),
        0x20 | 0x4C | 0x6C => Some(OpInfo { mode: AddressingMode::NoneAddressing, len: 3 }),
        _ => None,
    }
}

} // verus!
