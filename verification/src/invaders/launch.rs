//! Frame pacing for the arcade board.
//!
//! The real board raises two raster interrupts per video frame, one
//! mid-screen through vector 0x08 and one at the vertical blank through
//! vector 0x10. [`InvadersLaunch`] keeps the alternation state and runs the
//! engine for one half-frame's worth of cycles at a time; the outer loop —
//! rendering, input, sleeping — stays with the caller.

use vstd::prelude::*;

use crate::cpu::Cpu;
use crate::io::IO;
use crate::isa::{interrupt_spec, lemma_cycles_pos, lemma_reaches_snoc, reaches,
    step_spec};
use crate::machine::Machine;
use crate::memory::AddressBus;

verus! {

/// Cycle budget of one half-frame burst: roughly the 2 MHz clock divided
/// by the 60 Hz frame rate, split over the two raster interrupts.
pub const CYCLES_PER_HALF_FRAME: u32 = 17476;

/// The driver state: which raster vector the next interrupt uses.
pub struct InvadersLaunch {
    int_num: bool,
}

impl InvadersLaunch {
    /// The vector the next delivered interrupt will use.
    pub closed spec fn next_vector(&self) -> u16 {
        if self.int_num {
            0x10
        } else {
            0x08
        }
    }

    /// Start a fresh frame cadence: the mid-screen vector comes first.
    pub fn new() -> (r: Self)
        ensures
            r.next_vector() == 0x08,
    {
        Self { int_num: false }
    }

    /// Step the engine until just over `budget` cycles have been spent,
    /// and return the cycles actually spent. The machine moves only by
    /// instruction steps: the new state is reachable from the old one.
    pub fn run_burst<B: AddressBus, I: IO>(cpu: &mut Cpu<B, I>, budget: u32) -> (r: u32)
        requires
            old(cpu).wf(),
            budget <= 1000000,
        ensures
            final(cpu).wf(),
            budget < r <= budget + 18,
            exists|n: nat| reaches(old(cpu)@, final(cpu)@, n),
    {
        let ghost start = cpu@;
        let ghost mut steps_taken: nat = 0;
        let mut total: u32 = 0;
        while total <= budget
            invariant
                cpu.wf(),
                total <= budget + 18,
                budget <= 1000000,
                reaches(start, cpu@, steps_taken),
            decreases budget + 18 - total,
        {
            let ghost before = cpu@;
            proof {
                lemma_cycles_pos(cpu@);
            }
            let step = cpu.next();
            proof {
                let b: u8 = if step.1 == 0xdb {
                    choose|b: u8| cpu@ == step_spec(before, b)
                } else {
                    0
                };
                assert(cpu@ == step_spec(before, b));
                lemma_reaches_snoc(start, before, steps_taken, b);
                steps_taken = steps_taken + 1;
            }
            total = total + step.0 as u32;
        }
        proof {
            assert(reaches(start, cpu@, steps_taken));
        }
        total
    }

    /// One half-frame: run the engine for the half-frame cycle budget,
    /// then deliver the raster interrupt whose turn it is. Reports whether
    /// the interrupt was taken; the alternation advances only then. The
    /// new machine state is an instruction-step chain from the old one,
    /// followed by one interrupt delivery through this turn's vector.
    pub fn half_frame<B: AddressBus, I: IO>(&mut self, cpu: &mut Cpu<B, I>) -> (delivered: bool)
        requires
            old(cpu).wf(),
        ensures
            final(cpu).wf(),
            delivered ==> final(self).next_vector() != old(self).next_vector(),
            !delivered ==> final(self).next_vector() == old(self).next_vector(),
            exists|mid: Machine, n: nat|
                reaches(old(cpu)@, mid, n) && final(cpu)@ == interrupt_spec(
                    mid,
                    old(self).next_vector(),
                ) && delivered == mid.inte,
    {
        let ghost start = cpu@;
        let _spent = Self::run_burst(cpu, CYCLES_PER_HALF_FRAME);
        let ghost mid = cpu@;
        let ghost n = choose|n: nat| reaches(start, mid, n);
        let vector: u16 = if self.int_num {
            0x10
        } else {
            0x08
        };
        let delivered = cpu.interrupt(vector);
        if delivered {
            self.int_num = !self.int_num;
        }
        proof {
            assert(reaches(start, mid, n) && cpu@ == interrupt_spec(mid, vector) && delivered
                == mid.inte);
        }
        delivered
    }
}

} // verus!
