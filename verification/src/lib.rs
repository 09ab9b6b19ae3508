//! A verified interpreter core for the MOS 6502 instruction set.
//!
//! The crate models the processor as a mathematical state (`sem::CpuView`)
//! with a spec-level transition function per instruction, and proves that
//! the executable fetch-decode-execute engine (`cpu::CPU`) follows those
//! transitions exactly.

use vstd::prelude::*;

pub mod flags;
pub mod laws;
pub mod opcode;
pub mod cpu;
pub mod sem;

verus! {

/// A machine around the processor core: builds it, loads a program
/// image, and drives execution with a caller-supplied per-step hook.
pub struct Nes {
    pub cpu: cpu::CPU,
}

impl Nes {
    /// A machine with `rom` loaded and the processor reset, ready to run.
    pub fn new(rom: &[u8]) -> (r: Nes)
        requires
            rom@.len() <= sem::MEM_SIZE - sem::LOAD_BASE,
        ensures
            r.cpu.wf(),
            r.cpu@ == sem::reset_sem(sem::load_sem(sem::initial(), rom@)),
    {
        let mut processor = cpu::CPU::new();
        processor.load(rom);
        processor.reset();
        Nes { cpu: processor }
    }

    /// Runs the loaded program, invoking `hook` before every fetch.
    /// A success is a halting step out of some well-formed state, a
    /// decode fault a faulting one; the hook may rewrite the machine at
    /// every step, so no more can be said of the states between.
    pub fn exec<H: cpu::StepHook>(&mut self, hook: &mut H) -> (r: Result<(), cpu::RunError>)
        requires
            old(self).cpu.wf(),
        ensures
            final(self).cpu.wf(),
            r is Ok ==> exists|t: sem::CpuView|
                t.inv() && final(self).cpu@ == sem::step_sem(t).0 && sem::step_sem(t).1
                    == sem::StepOutcome::Halted,
            r == Err::<(), cpu::RunError>(cpu::RunError::DecodeFault) ==> exists|t: sem::CpuView|
                t.inv() && final(self).cpu@ == sem::step_sem(t).0 && sem::step_sem(t).1
                    == sem::StepOutcome::Faulted,
            r is Err ==> r == Err::<(), cpu::RunError>(cpu::RunError::HookAbort) || r == Err::<(
            ), cpu::RunError>(cpu::RunError::DecodeFault) || r == Err::<(), cpu::RunError>(
                cpu::RunError::StepLimit,
            ),
    {
        self.cpu.run_with_callback(hook)
    }
}

} // verus!
