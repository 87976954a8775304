//! Laws of the stack and interrupt protocol, stated over the instruction
//! step functions and proved once and for all: the subroutine round trip and
//! the interrupt round trip.

use vstd::prelude::*;

use crate::cartridge::{Cartridge, Mapper};
use crate::cpu::{wrap16, CpuView};
use crate::cpu_ops::{spec_brk_step, spec_jsr_step, spec_rti_step, spec_rts_step};
use crate::ppu::PpuView;

verus! {

/// Stack round trip: a subroutine call followed by a return resumes at the
/// instruction following the call, with the stack pointer restored, for any
/// call target and any starting state. `cpu.prg_cnt` is the program counter
/// after the call's opcode byte, so the instruction following the three-byte
/// call lies two past it; program-counter arithmetic wraps, so no position
/// is excluded.
pub proof fn lemma_jsr_rts_round_trip<M: Mapper>(cpu: CpuView, ppu: PpuView, cart: Cartridge<M>)
    requires
        cpu.wf(),
    ensures
        ({
            let after_call = spec_jsr_step(cpu, ppu, cart).cpu;
            let after_ret = spec_rts_step(after_call);
            &&& after_ret.prg_cnt == wrap16(cpu.prg_cnt + 2)
            &&& after_ret.stck_pnt == cpu.stck_pnt
            &&& after_ret.acc == cpu.acc
            &&& after_ret.stat == cpu.stat
        }),
{
    reveal(spec_jsr_step);
    let ret = wrap16(cpu.prg_cnt + 1);
    let sp = cpu.stck_pnt as int;
    assert((ret / 256) * 256 + (ret % 256) == ret) by (nonlinear_arith);
    assert(ret / 256 < 256) by (nonlinear_arith)
        requires
            ret < 0x10000,
    ;
}

/// Interrupt round trip: a software interrupt followed by a return from
/// interrupt resumes at the address the interrupt pushed — one past its
/// padding byte — with the stack pointer restored and the status equal to
/// the pre-interrupt status on every bit but the break bit and the unused
/// bit, which the push-and-restore protocol forces.
#[verifier::rlimit(100)]
pub proof fn lemma_brk_rti_round_trip<M: Mapper>(cpu: CpuView, ppu: PpuView, cart: Cartridge<M>)
    requires
        cpu.wf(),
    ensures
        ({
            let after_int = spec_brk_step(cpu, ppu, cart).cpu;
            let after_ret = spec_rti_step(after_int);
            &&& after_ret.prg_cnt == wrap16(cpu.prg_cnt + 1)
            &&& after_ret.stck_pnt == cpu.stck_pnt
            &&& after_ret.stat & 0xcf == cpu.stat & 0xcf
            &&& after_ret.acc == cpu.acc
        }),
{
    reveal(spec_brk_step);
    let pc1 = wrap16(cpu.prg_cnt + 1);
    assert((pc1 / 256) * 256 + (pc1 % 256) == pc1) by (nonlinear_arith);
    assert(pc1 / 256 < 256) by (nonlinear_arith)
        requires
            pc1 < 0x10000,
    ;
    let s = cpu.stat;
    assert((((s | 0x30) & 0xef) | 0x20) & 0xcf == s & 0xcf) by (bit_vector);
}

} // verus!
