//! The executable processor: registers, memory, and the fetch-decode-
//! execute engine, each operation proved equal to its spec transition
//! in `sem`.

use vstd::pervasive::VecAdditionalExecFns;
use vstd::prelude::*;

use crate::flags;
use crate::flags::{FLAG_C, FLAG_D, FLAG_I, FLAG_N, FLAG_V, FLAG_Z};
use crate::opcode;
use crate::opcode::AddressingMode;
use crate::sem;
use crate::sem::{
    CpuView, StepOutcome, LOAD_BASE, MEM_SIZE, RESET_VECTOR, STACK_BASE, STACK_RESET,
};

verus! {

/// A terminal failure of a run.
#[derive(Debug, Clone, Copy, PartialEq, Eq, Structural)]
pub enum RunError {
    /// An opcode byte without a table entry was fetched.
    DecodeFault,
    /// The per-step hook asked for termination.
    HookAbort,
    /// The engine's step budget ran out with the machine still running.
    /// The budget is so large that no real program reaches it; the
    /// variant exists because every loop here is proved to terminate.
    StepLimit,
}

/// Upper bound on the steps one run will take.
pub const STEP_LIMIT: u64 = 0xFFFF_FFFF_FFFF_FFFF;

/// The processor: registers, status byte and the flat 64 KiB memory.
pub struct CPU {
    pub pc: u16,
    pub reg_a: u8,
    pub sp: u8,
    pub index_reg_x: u8,
    pub index_reg_y: u8,
    pub status: u8,
    /// The flat memory; read and write it through `mem_read` and
    /// `mem_write`, whose contracts speak of the view.
    pub memory: Vec<u8>,
}

impl View for CPU {
    type V = CpuView;

    open spec fn view(&self) -> CpuView {
        CpuView {
            pc: self.pc,
            a: self.reg_a,
            x: self.index_reg_x,
            y: self.index_reg_y,
            sp: self.sp,
            status: self.status,
            mem: self.memory@,
        }
    }
}

/// A caller-supplied hook run once per instruction, before the fetch,
/// with full access to the processor. Returning an error stops the run
/// without executing the pending opcode.
pub trait StepHook {
    fn on_step(&mut self, cpu: &mut CPU) -> (r: Result<(), ()>)
        requires
            old(cpu).wf(),
        ensures
            final(cpu).wf(),
    ;
}

/// The hook that does nothing and never stops the run.
pub struct NoHook;

impl StepHook for NoHook {
    fn on_step(&mut self, cpu: &mut CPU) -> (r: Result<(), ()>) {
        Ok(())
    }
}

impl CPU {
    /// The memory vector really covers the whole address space.
    pub open spec fn wf(&self) -> bool {
        self@.inv()
    }

    /// A zeroed processor in the power-on state.
    pub fn new() -> (r: CPU)
        ensures
            r.wf(),
            r@ == sem::initial(),
    {
        let mut memory: Vec<u8> = Vec::new();
        let mut i: usize = 0;
        while i < MEM_SIZE
            invariant
                i <= MEM_SIZE,
                memory@.len() == i,
                forall|j: int| 0 <= j < i ==> memory@[j] == 0u8,
            decreases MEM_SIZE - i,
        {
            memory.push(0);
            i = i + 1;
        }
        let r = CPU {
            pc: 0,
            reg_a: 0,
            sp: STACK_RESET,
            index_reg_x: 0,
            index_reg_y: 0,
            status: 0,
            memory,
        };
        proof {
            assert(r@.mem =~= sem::initial().mem);
            assert(r@ =~= sem::initial());
        }
        r
    }

    /// Reads the byte at `addr`.
    pub fn mem_read(&self, addr: u16) -> (r: u8)
        requires
            self.wf(),
        ensures
            r == sem::mem8(self@, addr),
    {
        self.memory[addr as usize]
    }

    /// Writes `data` to the byte at `addr`.
    pub fn mem_write(&mut self, addr: u16, data: u8)
        requires
            old(self).wf(),
        ensures
            final(self).wf(),
            final(self)@ == sem::mem8w(old(self)@, addr, data),
    {
        self.memory.set(addr as usize, data);
    }

    /// Two-byte little-endian read at `addr`.
    fn mem_read_u16(&self, addr: u16) -> (r: u16)
        requires
            self.wf(),
        ensures
            r == sem::mem16(self@, addr),
    {
        let lo = self.mem_read(addr);
        let hi = self.mem_read(addr.wrapping_add(1));
        combine16(hi, lo)
    }

    /// Two-byte little-endian write at `addr`.
    fn mem_write_u16(&mut self, addr: u16, data: u16)
        requires
            old(self).wf(),
        ensures
            final(self).wf(),
            final(self)@ == sem::mem16w(old(self)@, addr, data),
    {
        let (hi, lo) = split16(data);
        self.mem_write(addr, lo);
        self.mem_write(addr.wrapping_add(1), hi);
    }

    /// Pushes a byte onto the stack page and moves the pointer down.
    fn stack_push(&mut self, data: u8)
        requires
            old(self).wf(),
        ensures
            final(self).wf(),
            final(self)@ == sem::push_sem(old(self)@, data),
    {
        let addr = STACK_BASE + (self.sp as u16);
        self.mem_write(addr, data);
        self.sp = self.sp.wrapping_sub(1);
    }

    /// Pulls a byte: moves the pointer up, then reads its slot.
    fn stack_pop(&mut self) -> (r: u8)
        requires
            old(self).wf(),
        ensures
            final(self).wf(),
            final(self)@ == sem::pop_sem(old(self)@).0,
            r == sem::pop_sem(old(self)@).1,
    {
        self.sp = self.sp.wrapping_add(1);
        self.mem_read(STACK_BASE + (self.sp as u16))
    }

    /// Pushes a 16-bit value, high byte first.
    fn stack_push_u16(&mut self, data: u16)
        requires
            old(self).wf(),
        ensures
            final(self).wf(),
            final(self)@ == sem::push16_sem(old(self)@, data),
    {
        let (hi, lo) = split16(data);
        self.stack_push(hi);
        self.stack_push(lo);
    }

    /// Pulls a 16-bit value, low byte first.
    fn stack_pop_u16(&mut self) -> (r: u16)
        requires
            old(self).wf(),
        ensures
            final(self).wf(),
            final(self)@ == sem::pop16_sem(old(self)@).0,
            r == sem::pop16_sem(old(self)@).1,
    {
        let lo = self.stack_pop();
        let hi = self.stack_pop();
        combine16(hi, lo)
    }

    /// Effective operand address for `mode`, with the program counter
    /// already past the opcode byte. The no-operand mode never reaches
    /// this resolver; asking it for an address would be a table error.
    fn get_operand_address(&self, mode: &AddressingMode) -> (r: u16)
        requires
            self.wf(),
            *mode != AddressingMode::NoneAddressing,
        ensures
            r == sem::operand_addr(self@, *mode),
    {
        match mode {
            AddressingMode::Immediate => self.pc,
            AddressingMode::ZeroPage => self.mem_read(self.pc) as u16,
            AddressingMode::Absolute => self.mem_read_u16(self.pc),
            AddressingMode::ZeroPage_X => {
                let pos = self.mem_read(self.pc);
                pos.wrapping_add(self.index_reg_x) as u16
            },
            AddressingMode::ZeroPage_Y => {
                let pos = self.mem_read(self.pc);
                pos.wrapping_add(self.index_reg_y) as u16
            },
            AddressingMode::Absolute_X => {
                let pos = self.mem_read_u16(self.pc);
                pos.wrapping_add(self.index_reg_x as u16)
            },
            AddressingMode::Absolute_Y => {
                let pos = self.mem_read_u16(self.pc);
                pos.wrapping_add(self.index_reg_y as u16)
            },
            AddressingMode::Indirect_X => {
                let base = self.mem_read(self.pc);
                let ptr = base.wrapping_add(self.index_reg_x);
                let lo = self.mem_read(ptr as u16);
                let hi = self.mem_read(ptr.wrapping_add(1) as u16);
                combine16(hi, lo)
            },
            AddressingMode::Indirect_Y => {
                let base = self.mem_read(self.pc);
                let lo = self.mem_read(base as u16);
                let hi = self.mem_read(base.wrapping_add(1) as u16);
                let deref_base = combine16(hi, lo);
                deref_base.wrapping_add(self.index_reg_y as u16)
            },
            AddressingMode::NoneAddressing => vstd::pervasive::unreached(),
        }
    }

    /// Records a stored value in the Zero and Negative flags.
    fn update_zero_and_negative_flags(&mut self, reg: u8)
        ensures
            final(self)@ == (CpuView { status: flags::with_zn(old(self)@.status, reg), ..old(
                self,
            )@ }),
    {
        self.status = flags::set_flag(self.status, FLAG_Z, reg == 0);
        self.status = flags::set_flag(self.status, FLAG_N, (reg & 0x80) != 0);
    }

    /// Load accumulator.
    fn lda(&mut self, mode: &AddressingMode)
        requires
            old(self).wf(),
            *mode != AddressingMode::NoneAddressing,
        ensures
            final(self).wf(),
            final(self)@ == sem::lda_sem(old(self)@, *mode),
    {
        let addr = self.get_operand_address(mode);
        let value = self.mem_read(addr);
        self.reg_a = value;
        self.update_zero_and_negative_flags(value);
    }

    /// Load X register.
    fn ldx(&mut self, mode: &AddressingMode)
        requires
            old(self).wf(),
            *mode != AddressingMode::NoneAddressing,
        ensures
            final(self).wf(),
            final(self)@ == sem::ldx_sem(old(self)@, *mode),
    {
        let addr = self.get_operand_address(mode);
        let value = self.mem_read(addr);
        self.index_reg_x = value;
        self.update_zero_and_negative_flags(value);
    }

    /// Load Y register.
    fn ldy(&mut self, mode: &AddressingMode)
        requires
            old(self).wf(),
            *mode != AddressingMode::NoneAddressing,
        ensures
            final(self).wf(),
            final(self)@ == sem::ldy_sem(old(self)@, *mode),
    {
        let addr = self.get_operand_address(mode);
        let value = self.mem_read(addr);
        self.index_reg_y = value;
        self.update_zero_and_negative_flags(value);
    }

    /// Store accumulator.
    fn sta(&mut self, mode: &AddressingMode)
        requires
            old(self).wf(),
            *mode != AddressingMode::NoneAddressing,
        ensures
            final(self).wf(),
            final(self)@ == sem::sta_sem(old(self)@, *mode),
    {
        let addr = self.get_operand_address(mode);
        self.mem_write(addr, self.reg_a);
    }

    /// Store X register.
    fn stx(&mut self, mode: &AddressingMode)
        requires
            old(self).wf(),
            *mode != AddressingMode::NoneAddressing,
        ensures
            final(self).wf(),
            final(self)@ == sem::stx_sem(old(self)@, *mode),
    {
        let addr = self.get_operand_address(mode);
        self.mem_write(addr, self.index_reg_x);
    }

    /// Store Y register.
    fn sty(&mut self, mode: &AddressingMode)
        requires
            old(self).wf(),
            *mode != AddressingMode::NoneAddressing,
        ensures
            final(self).wf(),
            final(self)@ == sem::sty_sem(old(self)@, *mode),
    {
        let addr = self.get_operand_address(mode);
        self.mem_write(addr, self.index_reg_y);
    }

    /// Adds `value` and the carry into the accumulator, widened, and
    /// derives the carry and signed-overflow flags from the sum.
    fn add_to_a(&mut self, value: u8)
        ensures
            final(self)@ == sem::arith_sem(old(self)@, value),
    {
        let c: u16 = if flags::get_flag(self.status, FLAG_C) {
            1
        } else {
            0
        };
        let sum: u16 = (value as u16) + (self.reg_a as u16) + c;
        self.status = flags::set_flag(self.status, FLAG_C, sum > 0xFF);
        proof {
            assert(sum < 512 ==> (sum & 0xFF) == sum % 256) by (bit_vector);
        }
        let result: u8 = (sum & 0xFF) as u8;
        self.status = flags::set_flag(
            self.status,
            FLAG_V,
            ((result ^ value) & (result ^ self.reg_a) & 0x80) != 0,
        );
        self.reg_a = result;
        self.update_zero_and_negative_flags(result);
    }

    /// Add-with-carry.
    fn adc(&mut self, mode: &AddressingMode)
        requires
            old(self).wf(),
            *mode != AddressingMode::NoneAddressing,
        ensures
            final(self).wf(),
            final(self)@ == sem::adc_sem(old(self)@, *mode),
    {
        let addr = self.get_operand_address(mode);
        let value = self.mem_read(addr);
        self.add_to_a(value);
    }

    /// Subtract-with-carry: add the operand's one's complement.
    fn sbc(&mut self, mode: &AddressingMode)
        requires
            old(self).wf(),
            *mode != AddressingMode::NoneAddressing,
        ensures
            final(self).wf(),
            final(self)@ == sem::sbc_sem(old(self)@, *mode),
    {
        let addr = self.get_operand_address(mode);
        let value = self.mem_read(addr);
        self.add_to_a(!value);
    }

    /// Bitwise AND into the accumulator.
    fn and(&mut self, mode: &AddressingMode)
        requires
            old(self).wf(),
            *mode != AddressingMode::NoneAddressing,
        ensures
            final(self).wf(),
            final(self)@ == sem::and_sem(old(self)@, *mode),
    {
        let addr = self.get_operand_address(mode);
        let value = self.mem_read(addr);
        let r = self.reg_a & value;
        self.reg_a = r;
        self.update_zero_and_negative_flags(r);
    }

    /// Bitwise exclusive OR into the accumulator.
    fn eor(&mut self, mode: &AddressingMode)
        requires
            old(self).wf(),
            *mode != AddressingMode::NoneAddressing,
        ensures
            final(self).wf(),
            final(self)@ == sem::eor_sem(old(self)@, *mode),
    {
        let addr = self.get_operand_address(mode);
        let value = self.mem_read(addr);
        let r = self.reg_a ^ value;
        self.reg_a = r;
        self.update_zero_and_negative_flags(r);
    }

    /// Bitwise inclusive OR into the accumulator.
    fn ora(&mut self, mode: &AddressingMode)
        requires
            old(self).wf(),
            *mode != AddressingMode::NoneAddressing,
        ensures
            final(self).wf(),
            final(self)@ == sem::ora_sem(old(self)@, *mode),
    {
        let addr = self.get_operand_address(mode);
        let value = self.mem_read(addr);
        let r = self.reg_a | value;
        self.reg_a = r;
        self.update_zero_and_negative_flags(r);
    }

    /// Arithmetic shift left of the accumulator.
    fn asl_accumulator(&mut self)
        ensures
            final(self)@ == sem::asl_a_sem(old(self)@),
    {
        let value = self.reg_a;
        self.status = flags::set_flag(self.status, FLAG_C, (value & 0x80) != 0);
        let r = value << 1u8;
        self.reg_a = r;
        self.update_zero_and_negative_flags(r);
    }

    /// Arithmetic shift left of a memory byte.
    fn asl(&mut self, mode: &AddressingMode)
        requires
            old(self).wf(),
            *mode != AddressingMode::NoneAddressing,
        ensures
            final(self).wf(),
            final(self)@ == sem::asl_sem(old(self)@, *mode),
    {
        let addr = self.get_operand_address(mode);
        let value = self.mem_read(addr);
        self.status = flags::set_flag(self.status, FLAG_C, (value & 0x80) != 0);
        let r = value << 1u8;
        self.mem_write(addr, r);
        self.update_zero_and_negative_flags(r);
    }

    /// Logical shift right of the accumulator.
    fn lsr_accumulator(&mut self)
        ensures
            final(self)@ == sem::lsr_a_sem(old(self)@),
    {
        let value = self.reg_a;
        self.status = flags::set_flag(self.status, FLAG_C, (value & 1) != 0);
        let r = value >> 1u8;
        self.reg_a = r;
        self.update_zero_and_negative_flags(r);
    }

    /// Logical shift right of a memory byte.
    fn lsr(&mut self, mode: &AddressingMode)
        requires
            old(self).wf(),
            *mode != AddressingMode::NoneAddressing,
        ensures
            final(self).wf(),
            final(self)@ == sem::lsr_sem(old(self)@, *mode),
    {
        let addr = self.get_operand_address(mode);
        let value = self.mem_read(addr);
        self.status = flags::set_flag(self.status, FLAG_C, (value & 1) != 0);
        let r = value >> 1u8;
        self.mem_write(addr, r);
        self.update_zero_and_negative_flags(r);
    }

    /// Rotate the accumulator left through the carry.
    fn rol_accumulator(&mut self)
        ensures
            final(self)@ == sem::rol_a_sem(old(self)@),
    {
        let value = self.reg_a;
        let carry_in = flags::get_flag(self.status, FLAG_C);
        self.status = flags::set_flag(self.status, FLAG_C, (value & 0x80) != 0);
        let r = if carry_in {
            (value << 1u8) | 1
        } else {
            value << 1u8
        };
        self.reg_a = r;
        self.update_zero_and_negative_flags(r);
    }

    /// Rotate a memory byte left through the carry.
    fn rol(&mut self, mode: &AddressingMode)
        requires
            old(self).wf(),
            *mode != AddressingMode::NoneAddressing,
        ensures
            final(self).wf(),
            final(self)@ == sem::rol_sem(old(self)@, *mode),
    {
        let addr = self.get_operand_address(mode);
        let value = self.mem_read(addr);
        let carry_in = flags::get_flag(self.status, FLAG_C);
        self.status = flags::set_flag(self.status, FLAG_C, (value & 0x80) != 0);
        let r = if carry_in {
            (value << 1u8) | 1
        } else {
            value << 1u8
        };
        self.mem_write(addr, r);
        self.update_zero_and_negative_flags(r);
    }

    /// Rotate the accumulator right through the carry.
    fn ror_accumulator(&mut self)
        ensures
            final(self)@ == sem::ror_a_sem(old(self)@),
    {
        let value = self.reg_a;
        let carry_in = flags::get_flag(self.status, FLAG_C);
        self.status = flags::set_flag(self.status, FLAG_C, (value & 1) != 0);
        let r = if carry_in {
            (value >> 1u8) | 0x80
        } else {
            value >> 1u8
        };
        self.reg_a = r;
        self.update_zero_and_negative_flags(r);
    }

    /// Rotate a memory byte right through the carry.
    fn ror(&mut self, mode: &AddressingMode)
        requires
            old(self).wf(),
            *mode != AddressingMode::NoneAddressing,
        ensures
            final(self).wf(),
            final(self)@ == sem::ror_sem(old(self)@, *mode),
    {
        let addr = self.get_operand_address(mode);
        let value = self.mem_read(addr);
        let carry_in = flags::get_flag(self.status, FLAG_C);
        self.status = flags::set_flag(self.status, FLAG_C, (value & 1) != 0);
        let r = if carry_in {
            (value >> 1u8) | 0x80
        } else {
            value >> 1u8
        };
        self.mem_write(addr, r);
        self.update_zero_and_negative_flags(r);
    }

    /// Transfer accumulator to X.
    fn tax(&mut self)
        ensures
            final(self)@ == sem::tax_sem(old(self)@),
    {
        self.index_reg_x = self.reg_a;
        self.update_zero_and_negative_flags(self.index_reg_x);
    }

    /// Transfer X to accumulator.
    fn txa(&mut self)
        ensures
            final(self)@ == sem::txa_sem(old(self)@),
    {
        self.reg_a = self.index_reg_x;
        self.update_zero_and_negative_flags(self.reg_a);
    }

    /// Increment X, wrapping.
    fn inx(&mut self)
        ensures
            final(self)@ == sem::inx_sem(old(self)@),
    {
        self.index_reg_x = self.index_reg_x.wrapping_add(1);
        self.update_zero_and_negative_flags(self.index_reg_x);
    }

    /// Increment Y, wrapping.
    fn iny(&mut self)
        ensures
            final(self)@ == sem::iny_sem(old(self)@),
    {
        self.index_reg_y = self.index_reg_y.wrapping_add(1);
        self.update_zero_and_negative_flags(self.index_reg_y);
    }

    /// Decrement X, wrapping.
    fn dex(&mut self)
        ensures
            final(self)@ == sem::dex_sem(old(self)@),
    {
        self.index_reg_x = self.index_reg_x.wrapping_sub(1);
        self.update_zero_and_negative_flags(self.index_reg_x);
    }

    /// Decrement Y, wrapping.
    fn dey(&mut self)
        ensures
            final(self)@ == sem::dey_sem(old(self)@),
    {
        self.index_reg_y = self.index_reg_y.wrapping_sub(1);
        self.update_zero_and_negative_flags(self.index_reg_y);
    }

    /// Increment a memory byte, wrapping.
    fn inc(&mut self, mode: &AddressingMode)
        requires
            old(self).wf(),
            *mode != AddressingMode::NoneAddressing,
        ensures
            final(self).wf(),
            final(self)@ == sem::inc_sem(old(self)@, *mode),
    {
        let addr = self.get_operand_address(mode);
        let value = self.mem_read(addr).wrapping_add(1);
        self.mem_write(addr, value);
        self.update_zero_and_negative_flags(value);
    }

    /// Decrement a memory byte, wrapping.
    fn dec(&mut self, mode: &AddressingMode)
        requires
            old(self).wf(),
            *mode != AddressingMode::NoneAddressing,
        ensures
            final(self).wf(),
            final(self)@ == sem::dec_sem(old(self)@, *mode),
    {
        let addr = self.get_operand_address(mode);
        let value = self.mem_read(addr).wrapping_sub(1);
        self.mem_write(addr, value);
        self.update_zero_and_negative_flags(value);
    }

    /// Conditional branch on `cond`.
    fn branch(&mut self, cond: bool)
        requires
            old(self).wf(),
        ensures
            final(self).wf(),
            final(self)@ == sem::branch_sem(old(self)@, cond),
    {
        if cond {
            let jump = self.mem_read(self.pc);
            let disp: u16 = if jump >= 0x80 {
                (jump as u16) + 0xFF00
            } else {
                jump as u16
            };
            self.pc = self.pc.wrapping_add(1).wrapping_add(disp);
        } else {
            self.pc = self.pc.wrapping_add(1);
        }
    }

    /// Bit test of the operand against the accumulator.
    fn bit(&mut self, mode: &AddressingMode)
        requires
            old(self).wf(),
            *mode != AddressingMode::NoneAddressing,
        ensures
            final(self).wf(),
            final(self)@ == sem::bit_sem(old(self)@, *mode),
    {
        let addr = self.get_operand_address(mode);
        let value = self.mem_read(addr);
        self.status = flags::set_flag(self.status, FLAG_Z, (self.reg_a & value) == 0);
        self.status = flags::set_flag(self.status, FLAG_V, (value & 0x40) != 0);
        self.status = flags::set_flag(self.status, FLAG_N, (value & 0x80) != 0);
    }

    /// Compare `reg` against the operand without storing the difference.
    fn compare(&mut self, mode: &AddressingMode, reg: u8)
        requires
            old(self).wf(),
            *mode != AddressingMode::NoneAddressing,
        ensures
            final(self).wf(),
            final(self)@ == sem::compare_sem(old(self)@, *mode, reg),
    {
        let addr = self.get_operand_address(mode);
        let value = self.mem_read(addr);
        self.status = flags::set_flag(self.status, FLAG_Z, reg == value);
        self.status = flags::set_flag(self.status, FLAG_C, reg >= value);
        let diff = reg.wrapping_sub(value);
        self.status = flags::set_flag(self.status, FLAG_N, (diff & 0x80) != 0);
    }

    /// Compare the accumulator.
    fn cmp(&mut self, mode: &AddressingMode)
        requires
            old(self).wf(),
            *mode != AddressingMode::NoneAddressing,
        ensures
            final(self).wf(),
            final(self)@ == sem::cmp_sem(old(self)@, *mode),
    {
        self.compare(mode, self.reg_a);
    }

    /// Compare the X register.
    fn cpx(&mut self, mode: &AddressingMode)
        requires
            old(self).wf(),
            *mode != AddressingMode::NoneAddressing,
        ensures
            final(self).wf(),
            final(self)@ == sem::cpx_sem(old(self)@, *mode),
    {
        self.compare(mode, self.index_reg_x);
    }

    /// Compare the Y register.
    fn cpy(&mut self, mode: &AddressingMode)
        requires
            old(self).wf(),
            *mode != AddressingMode::NoneAddressing,
        ensures
            final(self).wf(),
            final(self)@ == sem::cpy_sem(old(self)@, *mode),
    {
        self.compare(mode, self.index_reg_y);
    }

    /// Subroutine call: push the call's last byte address, then jump.
    fn jsr(&mut self)
        requires
            old(self).wf(),
        ensures
            final(self).wf(),
            final(self)@ == sem::jsr_sem(old(self)@),
    {
        let ret = self.pc.wrapping_add(1);
        self.stack_push_u16(ret);
        let target = self.mem_read_u16(self.pc);
        self.pc = target;
    }

    /// Return from interrupt: pull status, then the return address.
    fn rti(&mut self)
        requires
            old(self).wf(),
        ensures
            final(self).wf(),
            final(self)@ == sem::rti_sem(old(self)@),
    {
        let s = self.stack_pop();
        self.status = s;
        let addr = self.stack_pop_u16();
        self.pc = addr;
    }

    /// Subroutine return: pull an address and resume one byte past it.
    fn rts(&mut self)
        requires
            old(self).wf(),
        ensures
            final(self).wf(),
            final(self)@ == sem::rts_sem(old(self)@),
    {
        let addr = self.stack_pop_u16();
        self.pc = addr.wrapping_add(1);
    }

    /// One whole fetch-decode-execute step, equal to `sem::step_sem`.
    #[verifier::rlimit(60)]
    pub fn step(&mut self) -> (r: StepOutcome)
        requires
            old(self).wf(),
        ensures
            final(self).wf(),
            final(self)@ == sem::step_sem(old(self)@).0,
            r == sem::step_sem(old(self)@).1,
    {
        let code = self.mem_read(self.pc);
        self.pc = self.pc.wrapping_add(1);
        let op = match opcode::decode(code) {
            None => {
                return StepOutcome::Faulted;
            },
            Some(op) => op,
        };
        match code {
            0xA9 | 0xA5 | 0xB5 | 0xAD | 0xBD | 0xB9 | 0xA1 | 0xB1 => self.lda(&op.mode),
            0xA2 | 0xA6 | 0xB6 | 0xAE | 0xBE => self.ldx(&op.mode),
            0xA0 | 0xA4 | 0xB4 | 0xAC | 0xBC => self.ldy(&op.mode),
            0x85 | 0x95 | 0x8D | 0x9D | 0x99 | 0x81 | 0x91 => self.sta(&op.mode),
            0x86 | 0x96 | 0x8E => self.stx(&op.mode),
            0x84 | 0x94 | 0x8C => self.sty(&op.mode),
            0x69 | 0x65 | 0x75 | 0x6D | 0x7D | 0x79 | 0x61 | 0x71 => self.adc(&op.mode),
            0xE9 | 0xE5 | 0xF5 | 0xED | 0xFD | 0xF9 | 0xE1 | 0xF1 => self.sbc(&op.mode),
            0x29 | 0x25 | 0x35 | 0x2D | 0x3D | 0x39 | 0x21 | 0x31 => self.and(&op.mode),
            0x49 | 0x45 | 0x55 | 0x4D | 0x5D | 0x59 | 0x41 | 0x51 => self.eor(&op.mode),
            0x09 | 0x05 | 0x15 | 0x0D | 0x1D | 0x19 | 0x01 | 0x11 => self.ora(&op.mode),
            0x0A => self.asl_accumulator(),
            0x06 | 0x16 | 0x0E | 0x1E => self.asl(&op.mode),
            0x4A => self.lsr_accumulator(),
            0x46 | 0x56 | 0x4E | 0x5E => self.lsr(&op.mode),
            0x2A => self.rol_accumulator(),
            0x26 | 0x36 | 0x2E | 0x3E => self.rol(&op.mode),
            0x6A => self.ror_accumulator(),
            0x66 | 0x76 | 0x6E | 0x7E => self.ror(&op.mode),
            0x90 => {
                let cond = (self.status & FLAG_C) == 0;
                self.branch(cond);
            },
            0xB0 => {
                let cond = (self.status & FLAG_C) != 0;
                self.branch(cond);
            },
            0xF0 => {
                let cond = (self.status & FLAG_Z) != 0;
                self.branch(cond);
            },
            0xD0 => {
                let cond = (self.status & FLAG_Z) == 0;
                self.branch(cond);
            },
            0x30 => {
                let cond = (self.status & FLAG_N) != 0;
                self.branch(cond);
            },
            0x10 => {
                let cond = (self.status & FLAG_N) == 0;
                self.branch(cond);
            },
            0x50 => {
                let cond = (self.status & FLAG_V) == 0;
                self.branch(cond);
            },
            0x70 => {
                let cond = (self.status & FLAG_V) != 0;
                self.branch(cond);
            },
            0x24 | 0x2C => self.bit(&op.mode),
            0xC9 | 0xC5 | 0xD5 | 0xCD | 0xDD | 0xD9 | 0xC1 | 0xD1 => self.cmp(&op.mode),
            0xE0 | 0xE4 | 0xEC => self.cpx(&op.mode),
            0xC0 | 0xC4 | 0xCC => self.cpy(&op.mode),
            0xC6 | 0xD6 | 0xCE | 0xDE => self.dec(&op.mode),
            0xE6 | 0xF6 | 0xEE | 0xFE => self.inc(&op.mode),
            0xCA => self.dex(),
            0x88 => self.dey(),
            0xE8 => self.inx(),
            0xC8 => self.iny(),
            0x18 => {
                self.status = flags::set_flag(self.status, FLAG_C, false);
            },
            0xD8 => {
                self.status = flags::set_flag(self.status, FLAG_D, false);
            },
            0x58 => {
                self.status = flags::set_flag(self.status, FLAG_I, false);
            },
            0x38 => {
                self.status = flags::set_flag(self.status, FLAG_C, true);
            },
            0xF8 => {
                self.status = flags::set_flag(self.status, FLAG_D, true);
            },
            0x78 => {
                self.status = flags::set_flag(self.status, FLAG_I, true);
            },
            0xAA => self.tax(),
            0x8A => self.txa(),
            0x20 => self.jsr(),
            0x4C => {
                let addr = self.mem_read_u16(self.pc);
                self.pc = addr;
            },
            0x6C => {
                let addr = self.mem_read_u16(self.pc);
                let target = if addr & 0x00FF == 0x00FF {
                    let lo = self.mem_read(addr);
                    let hi = self.mem_read(addr & 0xFF00);
                    combine16(hi, lo)
                } else {
                    self.mem_read_u16(addr)
                };
                self.pc = target;
            },
            0x40 => self.rti(),
            0x60 => self.rts(),
            0x48 => self.stack_push(self.reg_a),
            0x08 => self.stack_push(self.status),
            0x68 => {
                let value = self.stack_pop();
                self.reg_a = value;
            },
            0x28 => {
                let value = self.stack_pop();
                self.status = value;
            },
            0xEA => {},
            0x00 => {
                return StepOutcome::Halted;
            },
            _ => {
                return StepOutcome::Faulted;
            },
        }
        let is_jump = matches!(
            code,
            0x90 | 0xB0 | 0xF0 | 0xD0 | 0x30 | 0x10 | 0x50 | 0x70 | 0x20 | 0x4C | 0x6C | 0x40
                | 0x60
        );
        if !is_jump {
            self.pc = self.pc.wrapping_add((op.len - 1) as u16);
        }
        StepOutcome::Running
    }

    /// Reset: clear accumulator, X and flags, restore the stack pointer
    /// to its power-on offset, and reload the program counter from the
    /// reset vector. Memory is untouched.
    pub fn reset(&mut self)
        requires
            old(self).wf(),
        ensures
            final(self).wf(),
            final(self)@ == sem::reset_sem(old(self)@),
    {
        self.reg_a = 0;
        self.index_reg_x = 0;
        self.status = 0;
        self.sp = STACK_RESET;
        self.pc = self.mem_read_u16(RESET_VECTOR);
    }

    /// Copies the program image into the load window and writes the
    /// window's start address as the little-endian reset vector.
    pub fn load(&mut self, program: &[u8])
        requires
            old(self).wf(),
            program@.len() <= MEM_SIZE - LOAD_BASE,
        ensures
            final(self).wf(),
            final(self)@ == sem::load_sem(old(self)@, program@),
    {
        let n = program.len();
        let mut i: usize = 0;
        while i < n
            invariant
                self.wf(),
                i <= n,
                n == program@.len(),
                n <= MEM_SIZE - LOAD_BASE,
                self@.pc == old(self)@.pc,
                self@.a == old(self)@.a,
                self@.x == old(self)@.x,
                self@.y == old(self)@.y,
                self@.sp == old(self)@.sp,
                self@.status == old(self)@.status,
                forall|k: int|
                    0 <= k < MEM_SIZE && !(LOAD_BASE <= k < LOAD_BASE + i) ==> self@.mem[k]
                        == old(self)@.mem[k],
                forall|j: int| 0 <= j < i ==> self@.mem[LOAD_BASE + j] == program@[j],
            decreases n - i,
        {
            let addr = LOAD_BASE + (i as u16);
            self.mem_write(addr, program[i]);
            i = i + 1;
        }
        self.mem_write_u16(RESET_VECTOR, LOAD_BASE);
        proof {
            assert(self@.mem =~= sem::load_sem(old(self)@, program@).mem);
            assert(self@ =~= sem::load_sem(old(self)@, program@));
        }
    }

    /// Runs fetch-decode-execute steps until the halt opcode ends the
    /// run, a byte outside the opcode table is fetched, or the step
    /// budget runs out.
    #[verifier::loop_isolation(false)]
    pub fn run(&mut self) -> (r: Result<(), RunError>)
        requires
            old(self).wf(),
        ensures
            final(self).wf(),
            r is Ok ==> exists|n: nat|
                sem::runs_until(old(self)@, n, final(self)@, StepOutcome::Halted),
            r is Err ==> r == Err::<(), RunError>(RunError::DecodeFault) || r == Err::<(
            ), RunError>(RunError::StepLimit),
            r == Err::<(), RunError>(RunError::DecodeFault) ==> exists|n: nat|
                sem::runs_until(old(self)@, n, final(self)@, StepOutcome::Faulted),
            r == Err::<(), RunError>(RunError::StepLimit) ==> final(self)@ == sem::run_sem(
                old(self)@,
                STEP_LIMIT as nat,
            ) && (forall|k: nat|
                k < STEP_LIMIT ==> sem::outcome_at(old(self)@, k) == StepOutcome::Running),
    {
        let mut fuel: u64 = STEP_LIMIT;
        let ghost mut n: nat = 0;
        loop
            invariant
                self.wf(),
                self@ == sem::run_sem(old(self)@, n),
                forall|k: nat| k < n ==> sem::outcome_at(old(self)@, k) == StepOutcome::Running,
                n + fuel == STEP_LIMIT,
            decreases fuel,
        {
            if fuel == 0 {
                return Err(RunError::StepLimit);
            }
            fuel = fuel - 1;
            let outcome = self.step();
            proof {
                assert(sem::run_sem(old(self)@, n + 1) == sem::step_sem(
                    sem::run_sem(old(self)@, n),
                ).0);
            }
            match outcome {
                StepOutcome::Running => {
                    proof {
                        n = n + 1;
                    }
                },
                StepOutcome::Halted => {
                    proof {
                        assert(sem::runs_until(old(self)@, n, self@, StepOutcome::Halted));
                    }
                    return Ok(());
                },
                StepOutcome::Faulted => {
                    proof {
                        assert(sem::runs_until(old(self)@, n, self@, StepOutcome::Faulted));
                    }
                    return Err(RunError::DecodeFault);
                },
            }
        }
    }

    /// Runs steps as `run` does, invoking `hook` once per instruction
    /// before the fetch; the hook has full access to the processor and
    /// may stop the run by returning an error. Because the hook may
    /// rewrite the machine at every step, the contract speaks of the
    /// last step alone: a success is a halting step out of some
    /// well-formed state, a decode fault a faulting one.
    pub fn run_with_callback<H: StepHook>(&mut self, hook: &mut H) -> (r: Result<(), RunError>)
        requires
            old(self).wf(),
        ensures
            final(self).wf(),
            r is Ok ==> exists|t: CpuView|
                t.inv() && final(self)@ == sem::step_sem(t).0 && sem::step_sem(t).1
                    == StepOutcome::Halted,
            r == Err::<(), RunError>(RunError::DecodeFault) ==> exists|t: CpuView|
                t.inv() && final(self)@ == sem::step_sem(t).0 && sem::step_sem(t).1
                    == StepOutcome::Faulted,
            r is Err ==> r == Err::<(), RunError>(RunError::HookAbort) || r == Err::<(
            ), RunError>(RunError::DecodeFault) || r == Err::<(), RunError>(RunError::StepLimit),
    {
        let mut fuel: u64 = STEP_LIMIT;
        loop
            invariant
                self.wf(),
            decreases fuel,
        {
            if fuel == 0 {
                return Err(RunError::StepLimit);
            }
            fuel = fuel - 1;
            match hook.on_step(self) {
                Ok(()) => {},
                Err(()) => {
                    return Err(RunError::HookAbort);
                },
            }
            let ghost pre = self@;
            match self.step() {
                StepOutcome::Running => {},
                StepOutcome::Halted => {
                    proof {
                        assert(pre.inv() && self@ == sem::step_sem(pre).0 && sem::step_sem(
                            pre,
                        ).1 == StepOutcome::Halted);
                    }
                    return Ok(());
                },
                StepOutcome::Faulted => {
                    proof {
                        assert(pre.inv() && self@ == sem::step_sem(pre).0 && sem::step_sem(
                            pre,
                        ).1 == StepOutcome::Faulted);
                    }
                    return Err(RunError::DecodeFault);
                },
            }
        }
    }

    /// Loads a program, resets, and runs it to completion.
    pub fn load_and_run(&mut self, program: &[u8]) -> (r: Result<(), RunError>)
        requires
            old(self).wf(),
            program@.len() <= MEM_SIZE - LOAD_BASE,
        ensures
            final(self).wf(),
            r is Ok ==> exists|n: nat|
                sem::runs_until(
                    sem::reset_sem(sem::load_sem(old(self)@, program@)),
                    n,
                    final(self)@,
                    StepOutcome::Halted,
                ),
            r == Err::<(), RunError>(RunError::DecodeFault) ==> exists|n: nat|
                sem::runs_until(
                    sem::reset_sem(sem::load_sem(old(self)@, program@)),
                    n,
                    final(self)@,
                    StepOutcome::Faulted,
                ),
            r == Err::<(), RunError>(RunError::StepLimit) ==> final(self)@ == sem::run_sem(
                sem::reset_sem(sem::load_sem(old(self)@, program@)),
                STEP_LIMIT as nat,
            ) && (forall|k: nat|
                k < STEP_LIMIT ==> sem::outcome_at(
                    sem::reset_sem(sem::load_sem(old(self)@, program@)),
                    k,
                ) == StepOutcome::Running),
            r is Err ==> r == Err::<(), RunError>(RunError::DecodeFault) || r == Err::<(
            ), RunError>(RunError::StepLimit),
    {
        self.load(program);
        self.reset();
        self.run()
    }
}

impl Default for CPU {
    /// The same zeroed power-on state `new` builds.
    fn default() -> (r: CPU)
        ensures
            r.wf(),
            r@ == sem::initial(),
    {
        CPU::new()
    }
}

/// Joins a high and a low byte into a 16-bit value.
fn combine16(hi: u8, lo: u8) -> (r: u16)
    ensures
        r == sem::combine(hi, lo),
{
    let h: u16 = hi as u16;
    let l: u16 = lo as u16;
    proof {
        assert(h < 256 && l < 256 ==> (h << 8 | l) == (256 * h + l) as u16) by (bit_vector);
    }
    h << 8 | l
}

/// Splits a 16-bit value into its high and low bytes.
fn split16(data: u16) -> (r: (u8, u8))
    ensures
        r.0 == sem::hi16(data),
        r.1 == sem::lo16(data),
{
    proof {
        assert((data >> 8) == data / 256 && (data & 0xFF) == data % 256) by (bit_vector);
    }
    ((data >> 8) as u8, (data & 0xFF) as u8)
}

} // verus!
