//! Addressing-mode resolution: consuming an instruction's operand bytes from
//! the instruction stream, computing the effective address, fetching the
//! datum it names, and detecting the page crossings that cost the extra
//! "oops" cycle.

use vstd::prelude::*;

use crate::cartridge::{Cartridge, Mapper};
use crate::cpu::{spec_bus_read, wrap16, CpuView, Mos6502};
use crate::opcodes::AddressingMode;
use crate::ppu::{PpuView, Ricoh2c02};

verus! {

/// What resolving an addressing mode produces: the datum to operate on, the
/// effective address for write-back (zero where the mode has none), the
/// program counter moved past the operand bytes, the extra cycles the
/// resolution cost (at most one), and the picture processor as the reads
/// left it — an operand fetch is an ordinary bus read and carries its side
/// effects.
#[verifier::ext_equal]
pub ghost struct FetchOut {
    pub data: u8,
    pub addr: u16,
    pub pc: u16,
    pub extra: u8,
    pub ppu: PpuView,
}

/// Addressing-mode resolution as a mathematical function. `count_oops` says
/// whether the caller is a read-class operation, the only ones that pay the
/// page-cross cycle.
///
/// `Implied`, `Relative` and `Indirect` resolve to nothing here: the first
/// has no operand, and the branch and jump handlers consume theirs
/// themselves.
pub open spec fn spec_fetch<M: Mapper>(
    cpu: CpuView,
    ppu: PpuView,
    cart: Cartridge<M>,
    mode: AddressingMode,
    count_oops: bool,
) -> FetchOut {
    match mode {
        AddressingMode::Accumulator => FetchOut {
            data: cpu.acc,
            addr: 0,
            pc: cpu.prg_cnt,
            extra: 0,
            ppu,
        },
        AddressingMode::Immediate => {
            let (d, p1) = spec_bus_read(cpu, ppu, cart, cpu.prg_cnt);
            FetchOut { data: d, addr: 0, pc: wrap16(cpu.prg_cnt + 1), extra: 0, ppu: p1 }
        },
        AddressingMode::ZeroPage => {
            let (d, p1) = spec_bus_read(cpu, ppu, cart, cpu.prg_cnt);
            let (v, p2) = spec_bus_read(cpu, p1, cart, d as u16);
            FetchOut { data: v, addr: d as u16, pc: wrap16(cpu.prg_cnt + 1), extra: 0, ppu: p2 }
        },
        AddressingMode::ZeroPageX => {
            let (d, p1) = spec_bus_read(cpu, ppu, cart, cpu.prg_cnt);
            let a = ((d + cpu.ind_x) % 256) as u16;
            let (v, p2) = spec_bus_read(cpu, p1, cart, a);
            FetchOut { data: v, addr: a, pc: wrap16(cpu.prg_cnt + 1), extra: 0, ppu: p2 }
        },
        AddressingMode::ZeroPageY => {
            let (d, p1) = spec_bus_read(cpu, ppu, cart, cpu.prg_cnt);
            let a = ((d + cpu.ind_y) % 256) as u16;
            let (v, p2) = spec_bus_read(cpu, p1, cart, a);
            FetchOut { data: v, addr: a, pc: wrap16(cpu.prg_cnt + 1), extra: 0, ppu: p2 }
        },
        AddressingMode::Absolute => {
            let (lo, p1) = spec_bus_read(cpu, ppu, cart, cpu.prg_cnt);
            let (hi, p2) = spec_bus_read(cpu, p1, cart, wrap16(cpu.prg_cnt + 1));
            let a = (hi * 256 + lo) as u16;
            let (v, p3) = spec_bus_read(cpu, p2, cart, a);
            FetchOut { data: v, addr: a, pc: wrap16(cpu.prg_cnt + 2), extra: 0, ppu: p3 }
        },
        AddressingMode::AbsoluteIndexX => {
            let (lo, p1) = spec_bus_read(cpu, ppu, cart, cpu.prg_cnt);
            let (hi, p2) = spec_bus_read(cpu, p1, cart, wrap16(cpu.prg_cnt + 1));
            let a = wrap16(hi * 256 + lo + cpu.ind_x);
            let crossed = lo + cpu.ind_x > 255;
            let (v, p3) = spec_bus_read(cpu, p2, cart, a);
            FetchOut {
                data: v,
                addr: a,
                pc: wrap16(cpu.prg_cnt + 2),
                extra: if count_oops && crossed { 1 } else { 0 },
                ppu: p3,
            }
        },
        AddressingMode::AbsoluteIndexY => {
            let (lo, p1) = spec_bus_read(cpu, ppu, cart, cpu.prg_cnt);
            let (hi, p2) = spec_bus_read(cpu, p1, cart, wrap16(cpu.prg_cnt + 1));
            let a = wrap16(hi * 256 + lo + cpu.ind_y);
            let crossed = lo + cpu.ind_y > 255;
            let (v, p3) = spec_bus_read(cpu, p2, cart, a);
            FetchOut {
                data: v,
                addr: a,
                pc: wrap16(cpu.prg_cnt + 2),
                extra: if count_oops && crossed { 1 } else { 0 },
                ppu: p3,
            }
        },
        AddressingMode::IndirectX => {
            let (d, p1) = spec_bus_read(cpu, ppu, cart, cpu.prg_cnt);
            let (lo, p2) = spec_bus_read(cpu, p1, cart, ((d + cpu.ind_x) % 256) as u16);
            let (hi, p3) = spec_bus_read(cpu, p2, cart, ((d + cpu.ind_x + 1) % 256) as u16);
            let a = (hi * 256 + lo) as u16;
            let (v, p4) = spec_bus_read(cpu, p3, cart, a);
            FetchOut { data: v, addr: a, pc: wrap16(cpu.prg_cnt + 1), extra: 0, ppu: p4 }
        },
        AddressingMode::IndirectY => {
            let (d, p1) = spec_bus_read(cpu, ppu, cart, cpu.prg_cnt);
            let (lo, p2) = spec_bus_read(cpu, p1, cart, d as u16);
            let (hi, p3) = spec_bus_read(cpu, p2, cart, ((d + 1) % 256) as u16);
            let a = wrap16(hi * 256 + lo + cpu.ind_y);
            let crossed = lo + cpu.ind_y > 255;
            let (v, p4) = spec_bus_read(cpu, p3, cart, a);
            FetchOut {
                data: v,
                addr: a,
                pc: wrap16(cpu.prg_cnt + 1),
                extra: if count_oops && crossed { 1 } else { 0 },
                ppu: p4,
            }
        },
        _ => FetchOut { data: 0, addr: 0, pc: cpu.prg_cnt, extra: 0, ppu },
    }
}

impl Mos6502 {
    /// Resolve an addressing mode: consume the operand bytes, compute the
    /// effective address, fetch the datum, and record the extra cycle of a
    /// page crossing when `count_oops` holds. Returns (datum, effective
    /// address).
    pub fn fetch_instruction_data<M: Mapper>(
        &mut self,
        cart: &Cartridge<M>,
        ppu: &mut Ricoh2c02,
        mode: AddressingMode,
        count_oops: bool,
    ) -> (r: (u8, u16))
        requires
            old(self)@.wf(),
            old(ppu)@.wf(),
            cart.wf(),
        ensures
            ({
                let f = spec_fetch(old(self)@, old(ppu)@, *cart, mode, count_oops);
                &&& r.0 == f.data
                &&& r.1 == f.addr
                &&& final(self)@ == (CpuView { prg_cnt: f.pc, extra_cycles: f.extra, ..old(self)@ })
                &&& final(ppu)@ == f.ppu
                &&& f.extra <= 1
                &&& (!count_oops ==> f.extra == 0)
                &&& (!crate::opcodes::spec_mode_can_cross(mode) ==> f.extra == 0)
                &&& final(ppu)@.wf()
            }),
    {
        self.extra_cycles = 0;
        match mode {
            AddressingMode::Accumulator => (self.acc, 0),
            AddressingMode::Immediate => {
                let d = self.bus_read(cart, ppu, self.prg_cnt);
                self.prg_cnt = step16(self.prg_cnt, 1);
                (d, 0)
            },
            AddressingMode::ZeroPage => {
                let d = self.bus_read(cart, ppu, self.prg_cnt);
                self.prg_cnt = step16(self.prg_cnt, 1);
                let v = self.bus_read(cart, ppu, d as u16);
                (v, d as u16)
            },
            AddressingMode::ZeroPageX => {
                let d = self.bus_read(cart, ppu, self.prg_cnt);
                self.prg_cnt = step16(self.prg_cnt, 1);
                let a = ((d as u16 + self.ind_x as u16) % 256) as u16;
                let v = self.bus_read(cart, ppu, a);
                (v, a)
            },
            AddressingMode::ZeroPageY => {
                let d = self.bus_read(cart, ppu, self.prg_cnt);
                self.prg_cnt = step16(self.prg_cnt, 1);
                let a = ((d as u16 + self.ind_y as u16) % 256) as u16;
                let v = self.bus_read(cart, ppu, a);
                (v, a)
            },
            AddressingMode::Absolute => {
                let lo = self.bus_read(cart, ppu, self.prg_cnt);
                let hi = self.bus_read(cart, ppu, step16(self.prg_cnt, 1));
                self.prg_cnt = step16(self.prg_cnt, 2);
                let a = (hi as u16) * 256 + (lo as u16);
                let v = self.bus_read(cart, ppu, a);
                (v, a)
            },
            AddressingMode::AbsoluteIndexX => {
                let lo = self.bus_read(cart, ppu, self.prg_cnt);
                let hi = self.bus_read(cart, ppu, step16(self.prg_cnt, 1));
                self.prg_cnt = step16(self.prg_cnt, 2);
                let a = ((hi as u32 * 256 + lo as u32 + self.ind_x as u32) % 0x10000) as u16;
                if count_oops && lo as u16 + self.ind_x as u16 > 255 {
                    self.extra_cycles = 1;
                }
                let v = self.bus_read(cart, ppu, a);
                (v, a)
            },
            AddressingMode::AbsoluteIndexY => {
                let lo = self.bus_read(cart, ppu, self.prg_cnt);
                let hi = self.bus_read(cart, ppu, step16(self.prg_cnt, 1));
                self.prg_cnt = step16(self.prg_cnt, 2);
                let a = ((hi as u32 * 256 + lo as u32 + self.ind_y as u32) % 0x10000) as u16;
                if count_oops && lo as u16 + self.ind_y as u16 > 255 {
                    self.extra_cycles = 1;
                }
                let v = self.bus_read(cart, ppu, a);
                (v, a)
            },
            AddressingMode::IndirectX => {
                let d = self.bus_read(cart, ppu, self.prg_cnt);
                self.prg_cnt = step16(self.prg_cnt, 1);
                let lo = self.bus_read(cart, ppu, (d as u16 + self.ind_x as u16) % 256);
                let hi = self.bus_read(cart, ppu, (d as u16 + self.ind_x as u16 + 1) % 256);
                let a = (hi as u16) * 256 + (lo as u16);
                let v = self.bus_read(cart, ppu, a);
                (v, a)
            },
            AddressingMode::IndirectY => {
                let d = self.bus_read(cart, ppu, self.prg_cnt);
                self.prg_cnt = step16(self.prg_cnt, 1);
                let lo = self.bus_read(cart, ppu, d as u16);
                let hi = self.bus_read(cart, ppu, (d as u16 + 1) % 256);
                let a = ((hi as u32 * 256 + lo as u32 + self.ind_y as u32) % 0x10000) as u16;
                if count_oops && lo as u16 + self.ind_y as u16 > 255 {
                    self.extra_cycles = 1;
                }
                let v = self.bus_read(cart, ppu, a);
                (v, a)
            },
            _ => (0, 0),
        }
    }
}

/// The program counter advanced by a small step, wrapping at the end of the
/// address space.
pub fn step16(pc: u16, step: u16) -> (r: u16)
    ensures
        r == wrap16(pc + step),
{
    ((pc as u32 + step as u32) % 0x10000) as u16
}

} // verus!
