//! The picture processor: its register file, video memories, scroll/address
//! latches and the write-toggle they share, and the side effects of the eight
//! CPU-visible registers. The scanline/dot state machine that advances this
//! state and raises the non-maskable interrupt lives in `ppu_timing`.

use vstd::prelude::*;

use crate::ram::zeroed;

verus! {

/// Mathematical state of the picture processor.
///
/// The vblank flag is bit 7 of `status`; NMI output enable is bit 7 of
/// `ctrl`. `pending_nmi` is the edge-detected NMI line: it becomes true on a
/// 0-to-1 transition of (vblank AND nmi-enable) and stays raised until the
/// timing-advance call reports and clears it. `suppress_vblank` is the
/// one-shot race flag: a status read landing just before the vblank dot
/// keeps the flag from being set at all that frame.
#[verifier::ext_equal]
pub ghost struct PpuView {
    pub vram: Seq<u8>,
    pub primary_oam: Seq<u8>,
    pub secondary_oam: Seq<u8>,
    pub read_buffer: u8,
    pub scanline: u16,
    pub cycle: u16,
    pub odd_frame: bool,
    pub ctrl: u8,
    pub mask: u8,
    pub status: u8,
    pub oam_addr: u8,
    pub v_addr: u16,
    pub t_addr: u16,
    pub fine_x: u8,
    pub write_toggle: bool,
    pub pending_nmi: bool,
    pub suppress_vblank: bool,
}

impl PpuView {
    /// Store sizes are fixed and the dot position is inside the frame: 262
    /// scanlines of 341 dots, the last scanline one dot shorter on odd
    /// frames.
    pub open spec fn wf(self) -> bool {
        &&& self.vram.len() == 2048
        &&& self.primary_oam.len() == 256
        &&& self.secondary_oam.len() == 32
        &&& self.scanline <= 261
        &&& self.cycle <= 340
        &&& (self.scanline == 261 && self.odd_frame ==> self.cycle <= 339)
    }
}

/// The power-on state: dot position at the start of the pre-render scanline,
/// vblank and sprite-overflow status bits set, everything else clear.
pub open spec fn spec_power_on() -> PpuView {
    PpuView {
        vram: Seq::new(2048, |i: int| 0u8),
        primary_oam: Seq::new(256, |i: int| 0u8),
        secondary_oam: Seq::new(32, |i: int| 0u8),
        read_buffer: 0,
        scanline: 261,
        cycle: 0,
        odd_frame: false,
        ctrl: 0,
        mask: 0,
        status: 0xa0,
        oam_addr: 0,
        v_addr: 0,
        t_addr: 0,
        fine_x: 0,
        write_toggle: false,
        pending_nmi: false,
        suppress_vblank: false,
    }
}

/// The current video-memory address after one data access: stepped by 1 or
/// by 32 according to ctrl bit 2, within the 15-bit address space.
pub open spec fn spec_v_step(p: PpuView) -> u16 {
    ((p.v_addr + (if p.ctrl & 0x04 == 0 { 1int } else { 32int })) % 0x8000) as u16
}

/// What a read of register `idx` returns and does to the state.
///
/// Only three registers are readable. A status read reports the vblank flag,
/// then clears it and the shared write-toggle; if the read lands within the
/// two-dot window in which the flag is being raised, the flag is neither
/// returned nor (for a read one dot early) raised at all, and the interrupt
/// edge of that frame is swallowed. A data read is delayed one access by the
/// internal read buffer and steps the video-memory address.
pub open spec fn spec_reg_read(p: PpuView, idx: u8) -> (u8, PpuView) {
    if idx == 2 {
        let race = p.scanline == 241 && p.cycle <= 2;
        let value = if race {
            p.status & 0x7f
        } else {
            p.status
        };
        (value, PpuView {
            status: p.status & 0x7f,
            write_toggle: false,
            suppress_vblank: p.suppress_vblank || (p.scanline == 241 && p.cycle == 0),
            pending_nmi: !race && p.pending_nmi,
            ..p
        })
    } else if idx == 4 {
        (p.primary_oam[p.oam_addr as int], p)
    } else if idx == 7 {
        (p.read_buffer, PpuView {
            read_buffer: p.vram[(p.v_addr % 0x800) as int],
            v_addr: spec_v_step(p),
            ..p
        })
    } else {
        (0, p)
    }
}

/// Whether a write to register `idx` is discarded by the power-on lockout:
/// control, mask, scroll and address writes take no effect until the warm-up
/// window of 29658 CPU cycles after reset has passed.
pub open spec fn spec_write_locked(idx: u8, cycles: u64) -> bool {
    (idx == 0 || idx == 1 || idx == 5 || idx == 6) && cycles <= 29658
}

/// What a write of `val` to register `idx` does to the state, given the CPU
/// cycles elapsed since reset.
///
/// A control write that raises the NMI-enable bit while the vblank flag is
/// already set raises the interrupt edge. Scroll and address writes share
/// the one write-toggle: the first write of a pair latches into the
/// temporary address, the second completes it (an address write then commits
/// it to the current address) and clears the toggle. Object-attribute data
/// writes are refused during the visible scanlines.
pub open spec fn spec_reg_write(p: PpuView, idx: u8, val: u8, cycles: u64) -> PpuView {
    if spec_write_locked(idx, cycles) {
        p
    } else if idx == 0 {
        PpuView {
            ctrl: val,
            t_addr: (p.t_addr & 0x73ff) | (((val & 0x03) as u16) << 10),
            pending_nmi: p.pending_nmi
                || (p.ctrl & 0x80 == 0 && val & 0x80 != 0 && p.status & 0x80 != 0),
            ..p
        }
    } else if idx == 1 {
        PpuView { mask: val, ..p }
    } else if idx == 3 {
        PpuView { oam_addr: val, ..p }
    } else if idx == 4 {
        if p.scanline < 240 {
            p
        } else {
            PpuView {
                primary_oam: p.primary_oam.update(p.oam_addr as int, val),
                oam_addr: ((p.oam_addr + 1) % 256) as u8,
                ..p
            }
        }
    } else if idx == 5 {
        if !p.write_toggle {
            PpuView {
                t_addr: (p.t_addr & 0x7fe0) | ((val >> 3) as u16),
                fine_x: val & 0x07,
                write_toggle: true,
                ..p
            }
        } else {
            PpuView {
                t_addr: (p.t_addr & 0x0c1f) | (((val & 0x07) as u16) << 12)
                    | (((val & 0xf8) as u16) << 2),
                write_toggle: false,
                ..p
            }
        }
    } else if idx == 6 {
        if !p.write_toggle {
            PpuView {
                t_addr: (p.t_addr & 0x00ff) | (((val & 0x3f) as u16) << 8),
                write_toggle: true,
                ..p
            }
        } else {
            let committed = (p.t_addr & 0x7f00) | (val as u16);
            PpuView { t_addr: committed, v_addr: committed, write_toggle: false, ..p }
        }
    } else if idx == 7 {
        PpuView {
            vram: p.vram.update((p.v_addr % 0x800) as int, val),
            v_addr: spec_v_step(p),
            ..p
        }
    } else {
        p
    }
}

/// The picture processor's register file and memories. All state a register
/// access or a timing advance can touch is an explicit field here, so every
/// call's effect is a function of the prior state and the call's arguments.
pub struct Ricoh2c02 {
    pub vram: Vec<u8>,
    pub primary_oam: Vec<u8>,
    pub secondary_oam: Vec<u8>,
    pub ppudata_buffer: u8,
    pub current_scanline: u16,
    pub scanline_cycle: u16,
    pub odd_frame: bool,
    pub ppu_ctrl: u8,
    pub ppu_mask: u8,
    pub ppu_status: u8,
    pub oam_addr: u8,
    pub vram_addr: u16,
    pub temp_vram_addr: u16,
    pub fine_x_scroll: u8,
    pub write_toggle: bool,
    pub pending_nmi: bool,
    pub suppress_vblank: bool,
}

impl View for Ricoh2c02 {
    type V = PpuView;

    open spec fn view(&self) -> PpuView {
        PpuView {
            vram: self.vram@,
            primary_oam: self.primary_oam@,
            secondary_oam: self.secondary_oam@,
            read_buffer: self.ppudata_buffer,
            scanline: self.current_scanline,
            cycle: self.scanline_cycle,
            odd_frame: self.odd_frame,
            ctrl: self.ppu_ctrl,
            mask: self.ppu_mask,
            status: self.ppu_status,
            oam_addr: self.oam_addr,
            v_addr: self.vram_addr,
            t_addr: self.temp_vram_addr,
            fine_x: self.fine_x_scroll,
            write_toggle: self.write_toggle,
            pending_nmi: self.pending_nmi,
            suppress_vblank: self.suppress_vblank,
        }
    }
}

impl Ricoh2c02 {
    pub fn new() -> (r: Ricoh2c02)
        ensures
            r@ == spec_power_on(),
            r@.wf(),
    {
        let r = Ricoh2c02 {
            vram: zeroed(2048),
            primary_oam: zeroed(256),
            secondary_oam: zeroed(32),
            ppudata_buffer: 0,
            current_scanline: 261,
            scanline_cycle: 0,
            odd_frame: false,
            ppu_ctrl: 0,
            ppu_mask: 0,
            ppu_status: 0xa0,
            oam_addr: 0,
            vram_addr: 0,
            temp_vram_addr: 0,
            fine_x_scroll: 0,
            write_toggle: false,
            pending_nmi: false,
            suppress_vblank: false,
        };
        proof {
            assert(r@ =~= spec_power_on());
        }
        r
    }

    /// Reset clears only the control and mask registers, the shared
    /// write-toggle, the data read buffer and the frame parity; video memory
    /// and the object-attribute store keep their contents, as on real
    /// hardware.
    pub fn reset(&mut self)
        ensures
            final(self)@ == (PpuView {
                ctrl: 0,
                mask: 0,
                write_toggle: false,
                read_buffer: 0,
                odd_frame: false,
                ..old(self)@
            }),
    {
        self.ppu_ctrl = 0;
        self.ppu_mask = 0;
        self.write_toggle = false;
        self.ppudata_buffer = 0;
        self.odd_frame = false;
    }

    /// Serve a CPU read of register `register_index` (the bus passes the
    /// address modulo 8), with the read's side effects.
    pub fn register_read(&mut self, register_index: u8) -> (r: u8)
        requires
            old(self)@.wf(),
        ensures
            r == spec_reg_read(old(self)@, register_index).0,
            final(self)@ == spec_reg_read(old(self)@, register_index).1,
            final(self)@.wf(),
    {
        match register_index {
            2 => {
                let race = self.current_scanline == 241 && self.scanline_cycle <= 2;
                let value = if race {
                    self.ppu_status & 0x7f
                } else {
                    self.ppu_status
                };
                if self.current_scanline == 241 && self.scanline_cycle == 0 {
                    self.suppress_vblank = true;
                }
                if race {
                    self.pending_nmi = false;
                }
                self.ppu_status = self.ppu_status & 0x7f;
                self.write_toggle = false;
                value
            },
            4 => self.primary_oam[self.oam_addr as usize],
            7 => {
                let value = self.ppudata_buffer;
                self.ppudata_buffer = self.vram[(self.vram_addr % 0x800) as usize];
                self.vram_addr = self.v_step();
                value
            },
            _ => 0,
        }
    }

    /// Serve a CPU write of register `register_index`, given the CPU cycles
    /// elapsed since reset (for the power-on write lockout).
    pub fn register_write(&mut self, register_index: u8, value: u8, cycles_passed: u64)
        requires
            old(self)@.wf(),
        ensures
            final(self)@ == spec_reg_write(old(self)@, register_index, value, cycles_passed),
            final(self)@.wf(),
    {
        let locked = cycles_passed <= 29658;
        match register_index {
            0 => {
                if !locked {
                    if self.ppu_ctrl & 0x80 == 0 && value & 0x80 != 0 && self.ppu_status & 0x80
                        != 0 {
                        self.pending_nmi = true;
                    }
                    self.temp_vram_addr = (self.temp_vram_addr & 0x73ff)
                        | (((value & 0x03) as u16) << 10);
                    self.ppu_ctrl = value;
                }
            },
            1 => {
                if !locked {
                    self.ppu_mask = value;
                }
            },
            3 => {
                self.oam_addr = value;
            },
            4 => {
                if self.current_scanline >= 240 {
                    self.primary_oam[self.oam_addr as usize] = value;
                    self.oam_addr = self.oam_addr.wrapping_add(1);
                }
            },
            5 => {
                if !locked {
                    if !self.write_toggle {
                        self.temp_vram_addr = (self.temp_vram_addr & 0x7fe0)
                            | ((value >> 3) as u16);
                        self.fine_x_scroll = value & 0x07;
                        self.write_toggle = true;
                    } else {
                        self.temp_vram_addr = (self.temp_vram_addr & 0x0c1f)
                            | (((value & 0x07) as u16) << 12) | (((value & 0xf8) as u16) << 2);
                        self.write_toggle = false;
                    }
                }
            },
            6 => {
                if !locked {
                    if !self.write_toggle {
                        self.temp_vram_addr = (self.temp_vram_addr & 0x00ff)
                            | (((value & 0x3f) as u16) << 8);
                        self.write_toggle = true;
                    } else {
                        self.temp_vram_addr = (self.temp_vram_addr & 0x7f00) | (value as u16);
                        self.vram_addr = self.temp_vram_addr;
                        self.write_toggle = false;
                    }
                }
            },
            7 => {
                self.vram[(self.vram_addr % 0x800) as usize] = value;
                self.vram_addr = self.v_step();
            },
            _ => {},
        }
    }

    /// The video-memory address stepped by the amount ctrl bit 2 selects.
    fn v_step(&self) -> (r: u16)
        ensures
            r == spec_v_step(self@),
    {
        let inc: u32 = if self.ppu_ctrl & 0x04 == 0 {
            1
        } else {
            32
        };
        ((self.vram_addr as u32 + inc) % 0x8000) as u16
    }

    /// Current scanline, 0 to 261.
    pub fn scanline(&self) -> (r: u16)
        ensures
            r == self@.scanline,
    {
        self.current_scanline
    }

    /// Current dot within the scanline, 0 to 340.
    pub fn cycle(&self) -> (r: u16)
        ensures
            r == self@.cycle,
    {
        self.scanline_cycle
    }

    /// The status register latch, without a read's side effects.
    pub fn status_bits(&self) -> (r: u8)
        ensures
            r == self@.status,
    {
        self.ppu_status
    }

    /// The current video-memory address (`v`).
    pub fn current_vram_addr(&self) -> (r: u16)
        ensures
            r == self@.v_addr,
    {
        self.vram_addr
    }

    /// The temporary video-memory address (`t`).
    pub fn temp_addr(&self) -> (r: u16)
        ensures
            r == self@.t_addr,
    {
        self.temp_vram_addr
    }

    /// The shared write-toggle latch (`w`).
    pub fn toggle(&self) -> (r: bool)
        ensures
            r == self@.write_toggle,
    {
        self.write_toggle
    }
}

/// A status read aborts a half-completed address sequence: after a first
/// address write (toggle set), a status read clears the toggle, so the next
/// address write is interpreted as a first write again and commits nothing
/// to the current video-memory address.
pub proof fn lemma_status_read_resets_write_toggle(p: PpuView, hi: u8, lo: u8, cycles: u64)
    requires
        !p.write_toggle,
        cycles > 29658,
    ensures
        ({
            let p1 = spec_reg_write(p, 6, hi, cycles);
            let p2 = spec_reg_read(p1, 2).1;
            let p3 = spec_reg_write(p2, 6, lo, cycles);
            &&& p1.write_toggle
            &&& !p2.write_toggle
            &&& p3.write_toggle
            &&& p3.v_addr == p.v_addr
        }),
{
}

} // verus!
