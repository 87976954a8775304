//! The cartridge: immutable PRG and CHR byte stores behind a mapper, the
//! address-decoding capability that turns CPU and PPU bus addresses into
//! offsets within those stores.

use vstd::prelude::*;

verus! {

/// The cartridge-side address-decoding capability. The CPU and PPU only ever
/// call through this interface and never inspect which mapping scheme is
/// behind it, so further schemes can be added without touching them.
///
/// A mapper must keep every PRG offset it hands out inside the window it
/// declares (`prg_window`); the cartridge checks that window against the
/// actual store once, at construction.
pub trait Mapper: Sized {
    /// Internal consistency of the mapper's own registers.
    spec fn inv(&self) -> bool;

    /// How many PRG bytes this mapping can address: every offset returned by
    /// `cpu_read` is below this.
    spec fn prg_window(&self) -> int;

    /// The PRG offset for a CPU address, as a mathematical function.
    spec fn spec_prg_offset(&self, addr: u16) -> int;

    /// The CHR offset for a PPU address, as a mathematical function.
    spec fn spec_chr_offset(&self, addr: u16) -> int;

    /// Translate a CPU address in cartridge space (`0x8000..=0xFFFF`) to an
    /// offset into the PRG store.
    fn cpu_read(&self, addr: u16) -> (off: usize)
        requires
            self.inv(),
            0x8000 <= addr,
        ensures
            off == self.spec_prg_offset(addr),
            off < self.prg_window(),
    ;

    /// A CPU write into cartridge space, used by mapping schemes with bank
    /// registers; the fixed mapping ignores it.
    fn cpu_write(&self, addr: u16, value: u8);

    /// Translate a PPU address to an offset into the CHR store. The offset is
    /// not promised to lie inside the store (a cartridge may carry no CHR at
    /// all); the cartridge checks it before indexing.
    fn ppu_read(&self, addr: u16) -> (off: usize)
        requires
            self.inv(),
        ensures
            off == self.spec_chr_offset(addr),
    ;

    /// A PPU-side write, used by no implemented mapping scheme.
    fn ppu_write(&self);
}

/// Why a ROM image was rejected at load time. No partial cartridge is ever
/// built from a rejected image.
#[derive(Debug, Clone, Copy, PartialEq, Eq, Structural)]
pub enum RomError {
    /// Fewer than the 16 header bytes.
    TooShort,
    /// The four magic bytes at the start of the header are wrong.
    BadMagic,
    /// The header declares zero PRG banks, leaving nothing to map.
    NoPrgBanks,
    /// The image ends before the PRG and CHR data the header declares.
    Truncated,
}

/// A loaded cartridge: the PRG and CHR stores plus the mapper that decodes
/// bus addresses into them. The stores are immutable after construction.
pub struct Cartridge<M: Mapper> {
    pub mapper: M,
    pub prg_rom: Vec<u8>,
    pub chr_rom: Vec<u8>,
}

/// The 16-byte header starts with these magic bytes.
pub open spec fn spec_magic_ok(d: Seq<u8>) -> bool {
    d[0] == 0x4e && d[1] == 0x45 && d[2] == 0x53 && d[3] == 0x1a
}

/// Bytes occupied by the optional trainer block, which sits between the
/// header and the PRG data and is skipped.
pub open spec fn spec_trainer_len(d: Seq<u8>) -> int {
    if d[6] & 0x04 != 0 {
        512
    } else {
        0
    }
}

/// Offset of the first PRG byte within the image.
pub open spec fn spec_prg_start(d: Seq<u8>) -> int {
    16 + spec_trainer_len(d)
}

/// PRG size in bytes: header byte 4 counts 16 KiB units.
pub open spec fn spec_prg_len(d: Seq<u8>) -> int {
    d[4] * 16384
}

/// CHR size in bytes: header byte 5 counts 8 KiB units.
pub open spec fn spec_chr_len(d: Seq<u8>) -> int {
    d[5] * 8192
}

/// A loadable image: full header, right magic, at least one PRG bank, and
/// all the data the header declares actually present.
pub open spec fn spec_rom_ok(d: Seq<u8>) -> bool {
    &&& d.len() >= 16
    &&& spec_magic_ok(d)
    &&& d[4] != 0
    &&& d.len() >= spec_prg_start(d) + spec_prg_len(d) + spec_chr_len(d)
}

/// The error reported for an image that is not loadable: the first check
/// that fails, in the order the loader performs them.
pub open spec fn spec_rom_error(d: Seq<u8>) -> RomError {
    if d.len() < 16 {
        RomError::TooShort
    } else if !spec_magic_ok(d) {
        RomError::BadMagic
    } else if d[4] == 0 {
        RomError::NoPrgBanks
    } else {
        RomError::Truncated
    }
}

impl<M: Mapper> Cartridge<M> {
    /// The mapper is consistent and can only hand out offsets inside the PRG
    /// store. Established at load time, never invalidated: the stores are not
    /// written after construction.
    pub open spec fn wf(&self) -> bool {
        &&& self.mapper.inv()
        &&& self.mapper.prg_window() <= self.prg_rom@.len()
    }

    /// What a CPU bus read of cartridge space returns: a PRG byte through the
    /// mapper for `0x8000..=0xFFFF`, and zero below that (work RAM and
    /// mapper-specific space are not populated).
    pub open spec fn spec_cpu_read(&self, addr: u16) -> u8 {
        if 0x8000 <= addr {
            self.prg_rom@[self.mapper.spec_prg_offset(addr)]
        } else {
            0
        }
    }

    /// What a PPU bus read returns: a CHR byte through the mapper when the
    /// offset lies inside the store, and zero otherwise.
    pub open spec fn spec_ppu_read(&self, addr: u16) -> u8 {
        if 0 <= self.mapper.spec_chr_offset(addr) < self.chr_rom@.len() {
            self.chr_rom@[self.mapper.spec_chr_offset(addr)]
        } else {
            0
        }
    }

    /// Serve a CPU bus read of cartridge space (`0x4020..=0xFFFF`).
    pub fn cpu_read(&self, addr: u16) -> (r: u8)
        requires
            self.wf(),
        ensures
            r == self.spec_cpu_read(addr),
    {
        if addr >= 0x8000 {
            let off = self.mapper.cpu_read(addr);
            self.prg_rom[off]
        } else {
            0
        }
    }

    /// Serve a CPU bus write of cartridge space: forwarded to the mapper's
    /// bank registers, which the fixed mapping does not have.
    pub fn cpu_write(&self, addr: u16, value: u8) {
        self.mapper.cpu_write(addr, value);
    }

    /// Serve a PPU bus read of cartridge CHR space.
    pub fn ppu_read(&self, addr: u16) -> (r: u8)
        requires
            self.wf(),
        ensures
            r == self.spec_ppu_read(addr),
    {
        let off = self.mapper.ppu_read(addr);
        if off < self.chr_rom.len() {
            self.chr_rom[off]
        } else {
            0
        }
    }
}

} // verus!
