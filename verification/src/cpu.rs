//! The CPU: registers, internal RAM, and the bus that routes its memory
//! accesses to RAM, the picture processor's registers, or the cartridge. The
//! addressing-mode resolution, the instruction handlers and the top-level
//! interpreter live in `cpu_fetch`, `cpu_ops` and `cpu_exec`.

use vstd::prelude::*;

use crate::cartridge::{Cartridge, Mapper};
use crate::ppu::{spec_reg_read, spec_reg_write, PpuView, Ricoh2c02};
use crate::ram::zeroed;

verus! {

/// A 16-bit value reduced modulo the address-space size: all program-counter
/// and address arithmetic wraps.
pub open spec fn wrap16(k: int) -> u16 {
    (k % 0x10000) as u16
}

/// An 8-bit value reduced modulo 256: stack-pointer and register arithmetic
/// wraps within a byte.
pub open spec fn wrap8(k: int) -> u8 {
    (k % 256) as u8
}

/// Mathematical state of the CPU: the six programmer-visible registers, the
/// 2 KiB of internal RAM, the extra ("oops") cycles the instruction under
/// execution has accrued, and the total cycles consumed since reset.
#[verifier::ext_equal]
pub ghost struct CpuView {
    pub acc: u8,
    pub ind_x: u8,
    pub ind_y: u8,
    pub stat: u8,
    pub stck_pnt: u8,
    pub prg_cnt: u16,
    pub ram: Seq<u8>,
    pub extra_cycles: u8,
    pub total_cycles: u64,
}

impl CpuView {
    /// The RAM store has its fixed size.
    pub open spec fn wf(self) -> bool {
        self.ram.len() == 2048
    }
}

/// The CPU. It holds no reference to the other units: every memory access
/// takes the cartridge and the picture processor as explicit parameters, so
/// each call's effect is a function of the states passed in.
pub struct Mos6502 {
    pub acc: u8,
    pub ind_x: u8,
    pub ind_y: u8,
    pub stat: u8,
    pub stck_pnt: u8,
    pub prg_cnt: u16,
    pub cpu_ram: Vec<u8>,
    pub extra_cycles: u8,
    pub total_cycles: u64,
}

impl View for Mos6502 {
    type V = CpuView;

    open spec fn view(&self) -> CpuView {
        CpuView {
            acc: self.acc,
            ind_x: self.ind_x,
            ind_y: self.ind_y,
            stat: self.stat,
            stck_pnt: self.stck_pnt,
            prg_cnt: self.prg_cnt,
            ram: self.cpu_ram@,
            extra_cycles: self.extra_cycles,
            total_cycles: self.total_cycles,
        }
    }
}

/// The CPU's power-on state: registers clear but for the conventional status
/// byte and stack pointer, the program counter parked on the reset vector,
/// RAM zeroed, and the seven cycles of the reset sequence already counted.
pub open spec fn spec_cpu_power_on() -> CpuView {
    CpuView {
        acc: 0,
        ind_x: 0,
        ind_y: 0,
        stat: 0x24,
        stck_pnt: 0xfd,
        prg_cnt: 0xfffc,
        ram: Seq::new(2048, |i: int| 0u8),
        extra_cycles: 0,
        total_cycles: 7,
    }
}

/// What a CPU bus read returns and does. Addresses below `0x2000` are the
/// 2 KiB internal RAM mirrored every `0x0800`; `0x2000..=0x3FFF` are the
/// picture processor's eight registers mirrored every 8 bytes, whose reads
/// have side effects; `0x4000..=0x401F` are the stubbed sound and input
/// ports, which read as zero; everything above is cartridge space.
pub open spec fn spec_bus_read<M: Mapper>(
    cpu: CpuView,
    ppu: PpuView,
    cart: Cartridge<M>,
    addr: u16,
) -> (u8, PpuView) {
    if addr < 0x2000 {
        (cpu.ram[(addr % 0x800) as int], ppu)
    } else if addr < 0x4000 {
        spec_reg_read(ppu, (addr % 8) as u8)
    } else if addr < 0x4020 {
        (0, ppu)
    } else {
        (cart.spec_cpu_read(addr), ppu)
    }
}

/// What a CPU bus write does, routed as for reads. A write to the picture
/// processor carries the CPU's cycle count since reset, which gates the
/// power-on write lockout; writes to the stubbed ports are discarded, and
/// writes to cartridge space go to the mapper's bank registers, which the
/// fixed mapping does not have.
pub open spec fn spec_bus_write<M: Mapper>(
    cpu: CpuView,
    ppu: PpuView,
    cart: Cartridge<M>,
    addr: u16,
    val: u8,
) -> (CpuView, PpuView) {
    if addr < 0x2000 {
        (CpuView { ram: cpu.ram.update((addr % 0x800) as int, val), ..cpu }, ppu)
    } else if addr < 0x4000 {
        (cpu, spec_reg_write(ppu, (addr % 8) as u8, val, cpu.total_cycles))
    } else {
        (cpu, ppu)
    }
}

impl Mos6502 {
    pub fn new() -> (r: Mos6502)
        ensures
            r@ == spec_cpu_power_on(),
            r@.wf(),
    {
        let r = Mos6502 {
            acc: 0,
            ind_x: 0,
            ind_y: 0,
            stat: 0x24,
            stck_pnt: 0xfd,
            prg_cnt: 0xfffc,
            cpu_ram: zeroed(2048),
            extra_cycles: 0,
            total_cycles: 7,
        };
        proof {
            assert(r@ =~= spec_cpu_power_on());
        }
        r
    }

    /// Reset reloads the program counter from the reset vector at
    /// `0xFFFC`/`0xFFFD` and restarts the cycle counter at the seven cycles
    /// the reset sequence itself takes. Unless this is the power-on reset, it
    /// also sets the interrupt-disable flag and decrements the stack pointer
    /// by 3 — the hardware convention, which pushes nothing.
    pub fn reset<M: Mapper>(&mut self, cart: &Cartridge<M>, power_up: bool)
        requires
            cart.wf(),
        ensures
            final(self)@ == (CpuView {
                prg_cnt: (cart.spec_cpu_read(0xfffd) * 256 + cart.spec_cpu_read(0xfffc)) as u16,
                stat: if power_up { old(self)@.stat } else { old(self)@.stat | 0x04 },
                stck_pnt: if power_up {
                    old(self)@.stck_pnt
                } else {
                    wrap8(old(self)@.stck_pnt - 3 + 256)
                },
                total_cycles: 7,
                ..old(self)@
            }),
    {
        let lo = cart.cpu_read(0xfffc);
        let hi = cart.cpu_read(0xfffd);
        self.prg_cnt = (hi as u16) * 256 + (lo as u16);
        self.total_cycles = 7;
        if !power_up {
            self.stat = self.stat | 0x04;
            self.stck_pnt = ((self.stck_pnt as u16 + 256 - 3) % 256) as u8;
        }
    }

    /// Read one byte through the bus.
    pub fn bus_read<M: Mapper>(&self, cart: &Cartridge<M>, ppu: &mut Ricoh2c02, addr: u16) -> (r:
        u8)
        requires
            self@.wf(),
            old(ppu)@.wf(),
            cart.wf(),
        ensures
            r == spec_bus_read(self@, old(ppu)@, *cart, addr).0,
            final(ppu)@ == spec_bus_read(self@, old(ppu)@, *cart, addr).1,
            final(ppu)@.wf(),
    {
        if addr < 0x2000 {
            self.cpu_ram[(addr % 0x800) as usize]
        } else if addr < 0x4000 {
            ppu.register_read((addr % 8) as u8)
        } else if addr < 0x4020 {
            0
        } else {
            cart.cpu_read(addr)
        }
    }

    /// Write one byte through the bus.
    pub fn bus_write<M: Mapper>(
        &mut self,
        cart: &Cartridge<M>,
        ppu: &mut Ricoh2c02,
        addr: u16,
        val: u8,
    )
        requires
            old(self)@.wf(),
            old(ppu)@.wf(),
            cart.wf(),
        ensures
            final(self)@ == spec_bus_write(old(self)@, old(ppu)@, *cart, addr, val).0,
            final(ppu)@ == spec_bus_write(old(self)@, old(ppu)@, *cart, addr, val).1,
            final(self)@.wf(),
            final(ppu)@.wf(),
    {
        if addr < 0x2000 {
            self.cpu_ram[(addr % 0x800) as usize] = val;
        } else if addr < 0x4000 {
            ppu.register_write((addr % 8) as u8, val, self.total_cycles);
        } else if addr >= 0x4020 {
            cart.cpu_write(addr, val);
        }
    }

    /// The accumulator.
    pub fn accumulator(&self) -> (r: u8)
        ensures
            r == self@.acc,
    {
        self.acc
    }

    /// The X index register.
    pub fn x_index(&self) -> (r: u8)
        ensures
            r == self@.ind_x,
    {
        self.ind_x
    }

    /// The Y index register.
    pub fn y_index(&self) -> (r: u8)
        ensures
            r == self@.ind_y,
    {
        self.ind_y
    }

    /// The packed status byte.
    pub fn status(&self) -> (r: u8)
        ensures
            r == self@.stat,
    {
        self.stat
    }

    /// The stack pointer, a cursor into page 1.
    pub fn stack_pointer(&self) -> (r: u8)
        ensures
            r == self@.stck_pnt,
    {
        self.stck_pnt
    }

    /// The program counter.
    pub fn program_counter(&self) -> (r: u16)
        ensures
            r == self@.prg_cnt,
    {
        self.prg_cnt
    }

    /// Total cycles consumed since reset.
    pub fn cycles_since_reset(&self) -> (r: u64)
        ensures
            r == self@.total_cycles,
    {
        self.total_cycles
    }

    /// One byte of internal RAM (the store behind addresses below `0x2000`).
    pub fn ram_byte(&self, index: u16) -> (r: u8)
        requires
            self@.wf(),
            index < 2048,
        ensures
            r == self@.ram[index as int],
    {
        self.cpu_ram[index as usize]
    }
}

} // verus!
