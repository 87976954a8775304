//! The console: the clock that ties the units together. It executes one CPU
//! instruction, learns its cycle cost, advances the picture processor by
//! three dots per CPU cycle, and repeats. The loop is simple glue; its one
//! obligation — strict alternation, so that every effect of an instruction
//! is visible before the picture processor advances — is what the step
//! contract states.

use vstd::prelude::*;

use crate::cartridge::{Cartridge, Mapper};
use crate::cpu::{spec_cpu_power_on, CpuView, Mos6502};
use crate::cpu_exec::spec_execute;
use crate::ppu::{spec_power_on, PpuView, Ricoh2c02};
use crate::ppu_timing::spec_run;

verus! {

/// One beat of the clock as a mathematical function: the CPU and picture
/// processor after one instruction and the matching timing advance, with the
/// reported interrupt edge consumed.
pub open spec fn spec_console_step<M: Mapper>(
    cpu: CpuView,
    ppu: PpuView,
    cart: Cartridge<M>,
) -> (CpuView, PpuView) {
    let e = spec_execute(cpu, ppu, cart);
    let q = spec_run(e.0.ppu, (3 * e.1) as nat);
    (e.0.cpu, PpuView { pending_nmi: false, ..q })
}

/// The clock run for up to `n` beats, stopping early only at the brim of the
/// cycle counter.
pub open spec fn spec_console_run<M: Mapper>(
    cpu: CpuView,
    ppu: PpuView,
    cart: Cartridge<M>,
    n: nat,
) -> (CpuView, PpuView)
    decreases n,
{
    if n == 0 || cpu.total_cycles > u64::MAX - 10 {
        (cpu, ppu)
    } else {
        let (c1, p1) = spec_console_step(cpu, ppu, cart);
        spec_console_run(c1, p1, cart, (n - 1) as nat)
    }
}

/// The three units, owned together so that one step can touch them all.
pub struct Console<M: Mapper> {
    pub cpu: Mos6502,
    pub ppu: Ricoh2c02,
    pub cart: Cartridge<M>,
}

impl<M: Mapper> Console<M> {
    /// Every unit is in a usable state.
    pub open spec fn wf(&self) -> bool {
        &&& self.cpu@.wf()
        &&& self.ppu@.wf()
        &&& self.cart.wf()
    }

    /// A console around a loaded cartridge, both units at power-on.
    pub fn new(cart: Cartridge<M>) -> (r: Console<M>)
        requires
            cart.wf(),
        ensures
            r.wf(),
            r.cpu@ == spec_cpu_power_on(),
            r.ppu@ == spec_power_on(),
            r.cart == cart,
    {
        Console { cpu: Mos6502::new(), ppu: Ricoh2c02::new(), cart }
    }

    /// One beat of the clock: execute one instruction, then advance the
    /// picture processor by three dots per cycle it consumed. Returns the
    /// cycle count and whether an NMI edge fired during the advance.
    pub fn step(&mut self) -> (r: (u8, bool))
        requires
            old(self).wf(),
            old(self).cpu@.total_cycles + 10 <= u64::MAX,
        ensures
            final(self).wf(),
            final(self).cart == old(self).cart,
            ({
                let e = spec_execute(old(self).cpu@, old(self).ppu@, old(self).cart);
                let q = spec_run(e.0.ppu, (3 * e.1) as nat);
                &&& final(self).cpu@ == e.0.cpu
                &&& r.0 as int == e.1
                &&& r.1 == q.pending_nmi
                &&& final(self).ppu@ == (PpuView { pending_nmi: false, ..q })
            }),
    {
        let cycles = self.cpu.execute_instruction(&self.cart, &mut self.ppu);
        let nmi = self.ppu.generate_signal(cycles);
        (cycles, nmi)
    }

    /// Power the console on and run: reset the CPU (the power-on reset,
    /// which loads the program counter from the reset vector), then beat the
    /// clock. The host bounds the run; real hardware would run until powered
    /// off.
    #[verifier::rlimit(100)]
    pub fn start_console(&mut self, max_instructions: u64)
        requires
            old(self).wf(),
        ensures
            final(self).wf(),
            final(self).cart == old(self).cart,
            ({
                let booted = CpuView {
                    prg_cnt: (old(self).cart.spec_cpu_read(0xfffd) * 256 + old(
                        self,
                    ).cart.spec_cpu_read(0xfffc)) as u16,
                    total_cycles: 7,
                    ..old(self).cpu@
                };
                let run = spec_console_run(
                    booted,
                    old(self).ppu@,
                    old(self).cart,
                    max_instructions as nat,
                );
                &&& final(self).cpu@ == run.0
                &&& final(self).ppu@ == run.1
            }),
    {
        self.cpu.reset(&self.cart, true);
        let ghost booted = self.cpu@;
        let ghost ppu0 = self.ppu@;
        proof {
            assert(booted =~= (CpuView {
                prg_cnt: (self.cart.spec_cpu_read(0xfffd) * 256 + self.cart.spec_cpu_read(
                    0xfffc,
                )) as u16,
                total_cycles: 7,
                ..old(self).cpu@
            }));
        }
        let mut i: u64 = 0;
        while i < max_instructions
            invariant
                self.wf(),
                self.cart == old(self).cart,
                i <= max_instructions,
                booted == (CpuView {
                    prg_cnt: (old(self).cart.spec_cpu_read(0xfffd) * 256 + old(
                        self,
                    ).cart.spec_cpu_read(0xfffc)) as u16,
                    total_cycles: 7,
                    ..old(self).cpu@
                }),
                ppu0 == old(self).ppu@,
                spec_console_run(booted, ppu0, self.cart, max_instructions as nat)
                    == spec_console_run(
                    self.cpu@,
                    self.ppu@,
                    self.cart,
                    (max_instructions - i) as nat,
                ),
            decreases max_instructions - i,
        {
            if self.cpu.cycles_since_reset() > u64::MAX - 10 {
                proof {
                    assert(spec_console_run(
                        self.cpu@,
                        self.ppu@,
                        self.cart,
                        (max_instructions - i) as nat,
                    ) == (self.cpu@, self.ppu@));
                }
                return ;
            }
            let (_cycles, _nmi) = self.step();
            i = i + 1;
        }
    }
}

} // verus!
