//! The fixed mapping scheme: PRG space `0x8000..=0xFFFF` maps straight into
//! the PRG store, mirrored across both 16 KiB halves when the cartridge
//! carries a single 16 KiB bank; CHR space is a direct offset into the CHR
//! store. Also the loader that builds a cartridge around it from a raw ROM
//! image.

use vstd::prelude::*;

use crate::cartridge::{Cartridge, Mapper, RomError};
use crate::cartridge::{spec_chr_len, spec_prg_len, spec_prg_start, spec_rom_error,
    spec_rom_ok};

verus! {

/// The fixed mapping. `prg_bank_mirror` is the address mask that realises the
/// mirroring: with one 16 KiB bank it clears the bit that distinguishes the
/// two halves of PRG space, with two banks it keeps the address as it is.
pub struct Nrom {
    prg_bank_mirror: u16,
}

impl Nrom {
    /// Whether the single 16 KiB bank is mirrored across both halves.
    pub closed spec fn mirrored(&self) -> bool {
        self.prg_bank_mirror == 0xbfff
    }

    pub fn new(prg_mirrored: bool) -> (m: Nrom)
        ensures
            m.inv(),
            m.mirrored() == prg_mirrored,
            m.prg_window() == if prg_mirrored { 0x4000int } else { 0x8000int },
    {
        Nrom { prg_bank_mirror: if prg_mirrored { 0xbfff } else { 0xffff } }
    }
}

impl Mapper for Nrom {
    closed spec fn inv(&self) -> bool {
        self.prg_bank_mirror == 0xbfff || self.prg_bank_mirror == 0xffff
    }

    closed spec fn prg_window(&self) -> int {
        if self.prg_bank_mirror == 0xbfff {
            0x4000
        } else {
            0x8000
        }
    }

    closed spec fn spec_prg_offset(&self, addr: u16) -> int {
        (addr & self.prg_bank_mirror) - 0x8000
    }

    closed spec fn spec_chr_offset(&self, addr: u16) -> int {
        addr as int
    }

    fn cpu_read(&self, addr: u16) -> (off: usize) {
        proof {
            let m = self.prg_bank_mirror;
            assert((m == 0xbfff || m == 0xffff) && addr >= 0x8000 ==> {
                &&& 0x8000 <= (addr & m)
                &&& (addr & m) - 0x8000 < (if m == 0xbfff { 0x4000int } else { 0x8000int })
            }) by (bit_vector);
        }
        ((addr & self.prg_bank_mirror) - 0x8000) as usize
    }

    fn cpu_write(&self, _addr: u16, _value: u8) {
    }

    fn ppu_read(&self, addr: u16) -> (off: usize) {
        addr as usize
    }

    fn ppu_write(&self) {
    }
}

/// How the fixed mapping decodes a PRG address, stated arithmetically: with
/// mirroring the offset repeats every 16 KiB, without it the offset is the
/// plain distance from the start of PRG space.
pub proof fn lemma_nrom_prg_offset(m: Nrom, addr: u16)
    requires
        m.inv(),
        0x8000 <= addr,
    ensures
        m.spec_prg_offset(addr) == if m.mirrored() {
            (addr - 0x8000) % 0x4000
        } else {
            addr - 0x8000
        },
{
    let mask = m.prg_bank_mirror;
    assert((mask == 0xbfff || mask == 0xffff) && addr >= 0x8000 ==> (addr & mask) - 0x8000
        == (if mask == 0xbfff { (addr - 0x8000) % 0x4000 } else { addr - 0x8000 }))
        by (bit_vector);
}

/// Mirroring law: on a cartridge with a single 16 KiB bank, both halves of
/// PRG space decode to the same offset; in particular the start of each half
/// is the same byte.
pub proof fn lemma_prg_mirroring(m: Nrom, addr: u16)
    requires
        m.inv(),
        m.mirrored(),
        0x8000 <= addr < 0xc000,
    ensures
        m.spec_prg_offset(addr) == m.spec_prg_offset((addr + 0x4000) as u16),
{
    lemma_nrom_prg_offset(m, addr);
    lemma_nrom_prg_offset(m, (addr + 0x4000) as u16);
}

impl Cartridge<Nrom> {
    /// Build a cartridge from a raw ROM image: a 16-byte header (validated
    /// against the magic bytes), an optional 512-byte trainer block to skip,
    /// then the PRG and CHR data, sized by header bytes 4 and 5. A malformed
    /// or truncated image is rejected before any cartridge state exists.
    pub fn load_rom(data: &Vec<u8>) -> (r: Result<Cartridge<Nrom>, RomError>)
        ensures
            r is Ok <==> spec_rom_ok(data@),
            r matches Err(e) ==> e == spec_rom_error(data@),
            r matches Ok(c) ==> {
                &&& c.wf()
                &&& c.prg_rom@ == data@.subrange(spec_prg_start(data@),
                    spec_prg_start(data@) + spec_prg_len(data@))
                &&& c.chr_rom@ == data@.subrange(spec_prg_start(data@) + spec_prg_len(data@),
                    spec_prg_start(data@) + spec_prg_len(data@) + spec_chr_len(data@))
                &&& c.mapper.mirrored() == (data@[4] == 1)
                &&& c.mapper.prg_window() == if data@[4] == 1 { 0x4000int } else { 0x8000int }
            },
    {
        if data.len() < 16 {
            return Err(RomError::TooShort);
        }
        if !(data[0] == 0x4e && data[1] == 0x45 && data[2] == 0x53 && data[3] == 0x1a) {
            return Err(RomError::BadMagic);
        }
        if data[4] == 0 {
            return Err(RomError::NoPrgBanks);
        }
        let prg_len: usize = data[4] as usize * 16384;
        let chr_len: usize = data[5] as usize * 8192;
        let trainer: usize = if data[6] & 0x04 != 0 { 512 } else { 0 };
        let start: usize = 16 + trainer;
        if data.len() < start + prg_len || data.len() - start - prg_len < chr_len {
            return Err(RomError::Truncated);
        }
        let prg_rom = copy_range(data, start, prg_len);
        let chr_rom = copy_range(data, start + prg_len, chr_len);
        let mirrored = data[4] == 1;
        Ok(Cartridge { mapper: Nrom::new(mirrored), prg_rom, chr_rom })
    }
}

/// Copy `len` bytes of `data` starting at `start` into a fresh store.
fn copy_range(data: &Vec<u8>, start: usize, len: usize) -> (r: Vec<u8>)
    requires
        start + len <= data.len(),
    ensures
        r@ == data@.subrange(start as int, start + len),
{
    let mut r: Vec<u8> = Vec::new();
    let mut i: usize = 0;
    while i < len
        invariant
            start + len <= data.len(),
            i <= len,
            r@ == data@.subrange(start as int, start + i),
        decreases len - i,
    {
        r.push(data[start + i]);
        proof {
            assert(r@ =~= data@.subrange(start as int, start + i + 1));
        }
        i += 1;
    }
    r
}

} // verus!
