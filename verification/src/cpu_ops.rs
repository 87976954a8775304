//! The instruction handlers: one executable function per operation (or per
//! family sharing a handler, as with the branches, stores and compares),
//! each proved equal to a mathematical step function over the CPU and
//! picture-processor views. The step functions are what the top-level
//! interpreter's contract and the stack and interrupt laws are stated over.

use vstd::prelude::*;

use crate::cartridge::{Cartridge, Mapper};
use crate::cpu::{spec_bus_read, spec_bus_write, wrap16, wrap8, CpuView, Mos6502};
use crate::cpu_fetch::{spec_fetch, step16, FetchOut};
use crate::flags::{set_flags_nz, set_flags_nzc, set_flags_nvzc, set_nz, set_nzc, set_nvzc, stat_c,
    stat_n, stat_v, stat_z};
use crate::opcodes::AddressingMode;
use crate::ppu::{PpuView, Ricoh2c02};

verus! {

/// The pair of unit states an instruction handler can touch.
#[verifier::ext_equal]
pub ghost struct Machine {
    pub cpu: CpuView,
    pub ppu: PpuView,
}

/// The CPU view after an addressing mode has been resolved: the program
/// counter past the operand bytes and the extra cycles recorded; registers
/// and RAM untouched.
pub open spec fn spec_after_fetch(cpu: CpuView, f: FetchOut) -> CpuView {
    CpuView { prg_cnt: f.pc, extra_cycles: f.extra, ..cpu }
}

// ---------------------------------------------------------------------------
// The stack: page 1, the stack pointer as cursor. Push stores at
// `0x100 + SP` then decrements SP; pull increments SP then loads.
// ---------------------------------------------------------------------------
/// One byte pushed.
pub open spec fn spec_push(cpu: CpuView, v: u8) -> CpuView {
    CpuView {
        ram: cpu.ram.update(0x100 + cpu.stck_pnt as int, v),
        stck_pnt: wrap8(cpu.stck_pnt + 255),
        ..cpu
    }
}

/// One byte pulled: the state after, and the byte.
pub open spec fn spec_pull(cpu: CpuView) -> (CpuView, u8) {
    let sp1 = wrap8(cpu.stck_pnt + 1);
    (CpuView { stck_pnt: sp1, ..cpu }, cpu.ram[0x100 + sp1 as int])
}

// ---------------------------------------------------------------------------
// Arithmetic: add-with-carry, with subtraction as addition of the one's
// complement.
// ---------------------------------------------------------------------------
/// Add-with-carry over the accumulator: the new accumulator and status.
/// The carry out is bit 8 of the widened sum; overflow is set exactly when
/// both addends share a sign and the result's sign differs from it.
pub open spec fn spec_adc_core(acc: u8, stat: u8, m: u8) -> (u8, u8) {
    let cin: int = if stat_c(stat) {
        1
    } else {
        0
    };
    let sum = acc + m + cin;
    let res = (sum % 256) as u8;
    (
        res,
        set_nvzc(
            stat,
            res >= 128,
            ((acc < 128) == (m < 128)) && ((res < 128) != (acc < 128)),
            res == 0,
            sum >= 256,
        ),
    )
}

/// The add-with-carry truth table, read back bit by bit: for every
/// accumulator, status and operand byte, the result is the widened sum
/// modulo 256, carry is set exactly when the sum reaches 256, negative and
/// zero reflect the result, and overflow is set exactly when both addends
/// share a sign that the result does not. Subtraction obeys the same table
/// with the operand replaced by its one's complement.
pub proof fn lemma_adc_truth_table(acc: u8, stat: u8, m: u8)
    ensures
        ({
            let cin: int = if stat_c(stat) {
                1
            } else {
                0
            };
            let res = spec_adc_core(acc, stat, m).0;
            let s2 = spec_adc_core(acc, stat, m).1;
            &&& res == (acc + m + cin) % 256
            &&& stat_c(s2) == (acc + m + cin >= 256)
            &&& stat_n(s2) == (res >= 128)
            &&& stat_z(s2) == (res == 0)
            &&& stat_v(s2) == (((acc < 128) == (m < 128)) && ((res < 128) != (acc < 128)))
        }),
{
    let cin: int = if stat_c(stat) {
        1
    } else {
        0
    };
    let sum = acc + m + cin;
    let res = (sum % 256) as u8;
    crate::flags::lemma_set_nvzc(
        stat,
        res >= 128,
        ((acc < 128) == (m < 128)) && ((res < 128) != (acc < 128)),
        res == 0,
        sum >= 256,
    );
}

/// The ADC instruction; with `invert`, the SBC instruction, which is ADC of
/// the operand's one's complement.
#[verifier::opaque]
pub open spec fn spec_adc_step<M: Mapper>(
    cpu: CpuView,
    ppu: PpuView,
    cart: Cartridge<M>,
    mode: AddressingMode,
    invert: bool,
) -> Machine {
    let f = spec_fetch(cpu, ppu, cart, mode, true);
    let m = if invert {
        f.data ^ 0xff
    } else {
        f.data
    };
    let (res, stat) = spec_adc_core(cpu.acc, cpu.stat, m);
    Machine { cpu: CpuView { acc: res, stat, ..spec_after_fetch(cpu, f) }, ppu: f.ppu }
}

// ---------------------------------------------------------------------------
// Loads and bitwise accumulator operations.
// ---------------------------------------------------------------------------
/// LDA: load the accumulator, setting N and Z.
#[verifier::opaque]
pub open spec fn spec_lda_step<M: Mapper>(
    cpu: CpuView,
    ppu: PpuView,
    cart: Cartridge<M>,
    mode: AddressingMode,
) -> Machine {
    let f = spec_fetch(cpu, ppu, cart, mode, true);
    Machine {
        cpu: CpuView {
            acc: f.data,
            stat: set_nz(cpu.stat, f.data >= 128, f.data == 0),
            ..spec_after_fetch(cpu, f)
        },
        ppu: f.ppu,
    }
}

/// LDX: load the X index, setting N and Z.
#[verifier::opaque]
pub open spec fn spec_ldx_step<M: Mapper>(
    cpu: CpuView,
    ppu: PpuView,
    cart: Cartridge<M>,
    mode: AddressingMode,
) -> Machine {
    let f = spec_fetch(cpu, ppu, cart, mode, true);
    Machine {
        cpu: CpuView {
            ind_x: f.data,
            stat: set_nz(cpu.stat, f.data >= 128, f.data == 0),
            ..spec_after_fetch(cpu, f)
        },
        ppu: f.ppu,
    }
}

/// LDY: load the Y index, setting N and Z.
#[verifier::opaque]
pub open spec fn spec_ldy_step<M: Mapper>(
    cpu: CpuView,
    ppu: PpuView,
    cart: Cartridge<M>,
    mode: AddressingMode,
) -> Machine {
    let f = spec_fetch(cpu, ppu, cart, mode, true);
    Machine {
        cpu: CpuView {
            ind_y: f.data,
            stat: set_nz(cpu.stat, f.data >= 128, f.data == 0),
            ..spec_after_fetch(cpu, f)
        },
        ppu: f.ppu,
    }
}

/// AND, ORA and EOR: the accumulator combined with the operand.
#[verifier::opaque]
pub open spec fn spec_logic_step<M: Mapper>(
    cpu: CpuView,
    ppu: PpuView,
    cart: Cartridge<M>,
    mode: AddressingMode,
    op: LogicOp,
) -> Machine {
    let f = spec_fetch(cpu, ppu, cart, mode, true);
    let res = match op {
        LogicOp::And => cpu.acc & f.data,
        LogicOp::Ora => cpu.acc | f.data,
        LogicOp::Eor => cpu.acc ^ f.data,
    };
    Machine {
        cpu: CpuView {
            acc: res,
            stat: set_nz(cpu.stat, res >= 128, res == 0),
            ..spec_after_fetch(cpu, f)
        },
        ppu: f.ppu,
    }
}

/// Which bitwise accumulator operation a handler performs.
#[derive(Clone, Copy, Debug, PartialEq, Eq)]
pub enum LogicOp {
    And,
    Ora,
    Eor,
}

/// BIT: N and V from bits 7 and 6 of the operand, Z from the operand masked
/// with the accumulator; the accumulator itself is untouched.
#[verifier::opaque]
pub open spec fn spec_bit_step<M: Mapper>(
    cpu: CpuView,
    ppu: PpuView,
    cart: Cartridge<M>,
    mode: AddressingMode,
) -> Machine {
    let f = spec_fetch(cpu, ppu, cart, mode, true);
    let stat = (cpu.stat & 0x3d) | (f.data & 0xc0) | (if cpu.acc & f.data == 0 {
        0x02
    } else {
        0
    });
    Machine { cpu: CpuView { stat, ..spec_after_fetch(cpu, f) }, ppu: f.ppu }
}

/// CMP, CPX and CPY: compare a register against the operand without storing
/// the difference. C holds exactly when the register is at least the operand
/// (unsigned), Z when they are equal, N is bit 7 of the wrapped difference.
#[verifier::opaque]
pub open spec fn spec_compare_step<M: Mapper>(
    cpu: CpuView,
    ppu: PpuView,
    cart: Cartridge<M>,
    mode: AddressingMode,
    reg: u8,
) -> Machine {
    let f = spec_fetch(cpu, ppu, cart, mode, true);
    let diff = wrap8(reg - f.data + 256);
    Machine {
        cpu: CpuView {
            stat: set_nzc(cpu.stat, diff >= 128, reg == f.data, reg >= f.data),
            ..spec_after_fetch(cpu, f)
        },
        ppu: f.ppu,
    }
}

// ---------------------------------------------------------------------------
// Shifts and rotates, and memory increment/decrement: read, compute, write
// back to the accumulator or to the resolved address.
// ---------------------------------------------------------------------------
/// Which shift or rotate a handler performs.
#[derive(Clone, Copy, Debug, PartialEq, Eq)]
pub enum ShiftOp {
    Asl,
    Lsr,
    Rol,
    Ror,
}

/// The shifted value and the bit shifted out (the new carry). Rotates shift
/// the old carry in at the vacated end.
pub open spec fn spec_shift_core(op: ShiftOp, v: u8, cin: bool) -> (u8, bool) {
    match op {
        ShiftOp::Asl => (((v * 2) % 256) as u8, v >= 128),
        ShiftOp::Lsr => ((v / 2) as u8, v % 2 == 1),
        ShiftOp::Rol => (((v * 2 + (if cin { 1int } else { 0 })) % 256) as u8, v >= 128),
        ShiftOp::Ror => ((v / 2 + (if cin { 128int } else { 0 })) as u8, v % 2 == 1),
    }
}

/// ASL, LSR, ROL and ROR: shift the fetched value, write it back to the
/// accumulator or to memory, set N and Z from the result and C from the bit
/// shifted out.
#[verifier::opaque]
pub open spec fn spec_shift_step<M: Mapper>(
    cpu: CpuView,
    ppu: PpuView,
    cart: Cartridge<M>,
    mode: AddressingMode,
    op: ShiftOp,
) -> Machine {
    let f = spec_fetch(cpu, ppu, cart, mode, false);
    let (res, c) = spec_shift_core(op, f.data, stat_c(cpu.stat));
    let stat = set_nzc(cpu.stat, res >= 128, res == 0, c);
    if mode is Accumulator {
        Machine { cpu: CpuView { acc: res, stat, ..spec_after_fetch(cpu, f) }, ppu: f.ppu }
    } else {
        let (c1, p1) = spec_bus_write(spec_after_fetch(cpu, f), f.ppu, cart, f.addr, res);
        Machine { cpu: CpuView { stat, ..c1 }, ppu: p1 }
    }
}

/// INC and DEC: step the fetched value by one either way, write it back to
/// memory, set N and Z.
#[verifier::opaque]
pub open spec fn spec_incdec_step<M: Mapper>(
    cpu: CpuView,
    ppu: PpuView,
    cart: Cartridge<M>,
    mode: AddressingMode,
    dec: bool,
) -> Machine {
    let f = spec_fetch(cpu, ppu, cart, mode, false);
    let res = if dec {
        wrap8(f.data + 255)
    } else {
        wrap8(f.data + 1)
    };
    let (c1, p1) = spec_bus_write(spec_after_fetch(cpu, f), f.ppu, cart, f.addr, res);
    Machine { cpu: CpuView { stat: set_nz(cpu.stat, res >= 128, res == 0), ..c1 }, ppu: p1 }
}

/// STA, STX and STY: store a register at the resolved address; no flags.
#[verifier::opaque]
pub open spec fn spec_store_step<M: Mapper>(
    cpu: CpuView,
    ppu: PpuView,
    cart: Cartridge<M>,
    mode: AddressingMode,
    reg: u8,
) -> Machine {
    let f = spec_fetch(cpu, ppu, cart, mode, false);
    let (c1, p1) = spec_bus_write(spec_after_fetch(cpu, f), f.ppu, cart, f.addr, reg);
    Machine { cpu: c1, ppu: p1 }
}

/// NOP: resolve the addressing mode for its operand consumption and page
/// crossings, discard the datum, change nothing else.
#[verifier::opaque]
pub open spec fn spec_nop_step<M: Mapper>(
    cpu: CpuView,
    ppu: PpuView,
    cart: Cartridge<M>,
    mode: AddressingMode,
) -> Machine {
    let f = spec_fetch(cpu, ppu, cart, mode, true);
    Machine { cpu: spec_after_fetch(cpu, f), ppu: f.ppu }
}

// ---------------------------------------------------------------------------
// Control flow.
// ---------------------------------------------------------------------------
/// The status bit a branch tests, selected by the opcode's two high bits:
/// N, V, C, Z in that order.
pub open spec fn spec_branch_flag(stat: u8, selector: u8) -> bool {
    if selector == 0 {
        stat_n(stat)
    } else if selector == 1 {
        stat_v(stat)
    } else if selector == 2 {
        stat_c(stat)
    } else {
        stat_z(stat)
    }
}

/// The eight branches, one semantics: consume the signed offset byte; if the
/// selected status bit matches the expected value, add the offset to the
/// program counter, pay one extra cycle, and a second if the target lies in
/// a different 256-byte page than the instruction following the branch.
#[verifier::opaque]
pub open spec fn spec_branch_step<M: Mapper>(
    cpu: CpuView,
    ppu: PpuView,
    cart: Cartridge<M>,
    selector: u8,
    expected: u8,
) -> Machine {
    let (off, p1) = spec_bus_read(cpu, ppu, cart, cpu.prg_cnt);
    let pc1 = wrap16(cpu.prg_cnt + 1);
    if spec_branch_flag(cpu.stat, selector) == (expected == 1) {
        let target = wrap16(pc1 + (if off < 128 {
            off as int
        } else {
            off + 0xff00
        }));
        let extra: u8 = if target / 256 == pc1 / 256 {
            1
        } else {
            2
        };
        Machine { cpu: CpuView { prg_cnt: target, extra_cycles: extra, ..cpu }, ppu: p1 }
    } else {
        Machine { cpu: CpuView { prg_cnt: pc1, extra_cycles: 0, ..cpu }, ppu: p1 }
    }
}

/// JMP: absolute, or indirect with the hardware quirk reproduced — when the
/// pointer's low byte is `0xFF`, the target's high byte is fetched from the
/// start of the same page, not the next one.
#[verifier::opaque]
pub open spec fn spec_jmp_step<M: Mapper>(
    cpu: CpuView,
    ppu: PpuView,
    cart: Cartridge<M>,
    mode: AddressingMode,
) -> Machine {
    let (lo, p1) = spec_bus_read(cpu, ppu, cart, cpu.prg_cnt);
    let (hi, p2) = spec_bus_read(cpu, p1, cart, wrap16(cpu.prg_cnt + 1));
    if mode is Absolute {
        Machine { cpu: CpuView { prg_cnt: (hi * 256 + lo) as u16, ..cpu }, ppu: p2 }
    } else {
        let ptr = (hi * 256 + lo) as u16;
        let hi_at = if ptr % 256 == 255 {
            (ptr - 255) as u16
        } else {
            (ptr + 1) as u16
        };
        let (tlo, p3) = spec_bus_read(cpu, p2, cart, ptr);
        let (thi, p4) = spec_bus_read(cpu, p3, cart, hi_at);
        Machine { cpu: CpuView { prg_cnt: (thi * 256 + tlo) as u16, ..cpu }, ppu: p4 }
    }
}

/// JSR: read the target, push the address of the instruction's last byte
/// (high byte first), jump. RTS undoes this push and adds one.
#[verifier::opaque]
pub open spec fn spec_jsr_step<M: Mapper>(cpu: CpuView, ppu: PpuView, cart: Cartridge<M>) -> Machine {
    let (lo, p1) = spec_bus_read(cpu, ppu, cart, cpu.prg_cnt);
    let (hi, p2) = spec_bus_read(cpu, p1, cart, wrap16(cpu.prg_cnt + 1));
    let ret = wrap16(cpu.prg_cnt + 1);
    let c1 = spec_push(cpu, (ret / 256) as u8);
    let c2 = spec_push(c1, (ret % 256) as u8);
    Machine { cpu: CpuView { prg_cnt: (hi * 256 + lo) as u16, ..c2 }, ppu: p2 }
}

/// RTS: pull the return address (low byte first) and resume one past it.
pub open spec fn spec_rts_step(cpu: CpuView) -> CpuView {
    let (c1, lo) = spec_pull(cpu);
    let (c2, hi) = spec_pull(c1);
    CpuView { prg_cnt: wrap16(hi * 256 + lo + 1), ..c2 }
}

/// BRK: push the address one past the padding byte (high byte first), push
/// the status with the break and unused bits forced on, set the
/// interrupt-disable flag, and vector through `0xFFFE`/`0xFFFF`.
#[verifier::opaque]
pub open spec fn spec_brk_step<M: Mapper>(cpu: CpuView, ppu: PpuView, cart: Cartridge<M>) -> Machine {
    let pc1 = wrap16(cpu.prg_cnt + 1);
    let c1 = spec_push(cpu, (pc1 / 256) as u8);
    let c2 = spec_push(c1, (pc1 % 256) as u8);
    let c3 = spec_push(c2, cpu.stat | 0x30);
    let (lo, p1) = spec_bus_read(c3, ppu, cart, 0xfffe);
    let (hi, p2) = spec_bus_read(c3, p1, cart, 0xffff);
    Machine {
        cpu: CpuView { prg_cnt: (hi * 256 + lo) as u16, stat: cpu.stat | 0x04, ..c3 },
        ppu: p2,
    }
}

/// RTI: pull the status — ignoring the break bit and forcing the unused bit
/// on — then the program counter, low byte first.
pub open spec fn spec_rti_step(cpu: CpuView) -> CpuView {
    let (c1, s) = spec_pull(cpu);
    let (c2, lo) = spec_pull(c1);
    let (c3, hi) = spec_pull(c2);
    CpuView { stat: (s & 0xef) | 0x20, prg_cnt: (hi * 256 + lo) as u16, ..c3 }
}

/// PLA: pull the accumulator, setting N and Z.
pub open spec fn spec_pla_step(cpu: CpuView) -> CpuView {
    let (c1, v) = spec_pull(cpu);
    CpuView { acc: v, stat: set_nz(cpu.stat, v >= 128, v == 0), ..c1 }
}

/// PLP: pull the status, ignoring the break bit and forcing the unused bit
/// on, as the restore side of the stack protocol always does.
pub open spec fn spec_plp_step(cpu: CpuView) -> CpuView {
    let (c1, v) = spec_pull(cpu);
    CpuView { stat: (v & 0xef) | 0x20, ..c1 }
}

impl Mos6502 {
    /// N and Z from a just-computed value; every other status bit kept.
    fn examine_status(&mut self, value: u8)
        ensures
            final(self)@ == (CpuView {
                stat: set_nz(old(self)@.stat, value >= 128, value == 0),
                ..old(self)@
            }),
    {
        self.stat = set_flags_nz(self.stat, value >= 128, value == 0);
    }

    /// Push one byte onto the stack in page 1. Also the handler for PHA and
    /// PHP, which push a register directly.
    pub fn push(&mut self, v: u8)
        requires
            old(self)@.wf(),
        ensures
            final(self)@ == spec_push(old(self)@, v),
            final(self)@.wf(),
    {
        self.cpu_ram[0x100 + self.stck_pnt as usize] = v;
        self.stck_pnt = ((self.stck_pnt as u16 + 255) % 256) as u8;
    }

    /// Pull one byte off the stack in page 1.
    fn pull(&mut self) -> (r: u8)
        requires
            old(self)@.wf(),
        ensures
            final(self)@ == spec_pull(old(self)@).0,
            r == spec_pull(old(self)@).1,
            final(self)@.wf(),
    {
        self.stck_pnt = ((self.stck_pnt as u16 + 1) % 256) as u8;
        self.cpu_ram[0x100 + self.stck_pnt as usize]
    }

    /// Shared core of ADC and SBC: add the operand and the carry into the
    /// accumulator.
    fn add_with_carry(&mut self, m: u8)
        ensures
            final(self)@ == (CpuView {
                acc: spec_adc_core(old(self)@.acc, old(self)@.stat, m).0,
                stat: spec_adc_core(old(self)@.acc, old(self)@.stat, m).1,
                ..old(self)@
            }),
    {
        let cin: u16 = if self.stat & 0x01 == 0x01 {
            1
        } else {
            0
        };
        let sum: u16 = self.acc as u16 + m as u16 + cin;
        let res: u8 = (sum % 256) as u8;
        let v = ((self.acc < 128) == (m < 128)) && ((res < 128) != (self.acc < 128));
        self.stat = set_flags_nvzc(self.stat, res >= 128, v, res == 0, sum >= 256);
        self.acc = res;
    }

    pub fn adc<M: Mapper>(&mut self, cart: &Cartridge<M>, ppu: &mut Ricoh2c02, mode: AddressingMode)
        requires
            old(self)@.wf(),
            old(ppu)@.wf(),
            cart.wf(),
        ensures
            final(self)@ == spec_adc_step(old(self)@, old(ppu)@, *cart, mode, false).cpu,
            final(ppu)@ == spec_adc_step(old(self)@, old(ppu)@, *cart, mode, false).ppu,
            final(self)@.wf(),
            final(ppu)@.wf(),
            final(self)@.total_cycles == old(self)@.total_cycles,
            final(self)@.extra_cycles <= 1,
            !crate::opcodes::spec_mode_can_cross(mode) ==> final(self)@.extra_cycles == 0,
    {
        proof {
            reveal(spec_adc_step);
        }
        let (data, _addr) = self.fetch_instruction_data(cart, ppu, mode, true);
        self.add_with_carry(data);
    }

    pub fn sbc<M: Mapper>(&mut self, cart: &Cartridge<M>, ppu: &mut Ricoh2c02, mode: AddressingMode)
        requires
            old(self)@.wf(),
            old(ppu)@.wf(),
            cart.wf(),
        ensures
            final(self)@ == spec_adc_step(old(self)@, old(ppu)@, *cart, mode, true).cpu,
            final(ppu)@ == spec_adc_step(old(self)@, old(ppu)@, *cart, mode, true).ppu,
            final(self)@.wf(),
            final(ppu)@.wf(),
            final(self)@.total_cycles == old(self)@.total_cycles,
            final(self)@.extra_cycles <= 1,
            !crate::opcodes::spec_mode_can_cross(mode) ==> final(self)@.extra_cycles == 0,
    {
        proof {
            reveal(spec_adc_step);
        }
        let (data, _addr) = self.fetch_instruction_data(cart, ppu, mode, true);
        self.add_with_carry(data ^ 0xff);
    }

    pub fn lda<M: Mapper>(&mut self, cart: &Cartridge<M>, ppu: &mut Ricoh2c02, mode: AddressingMode)
        requires
            old(self)@.wf(),
            old(ppu)@.wf(),
            cart.wf(),
        ensures
            final(self)@ == spec_lda_step(old(self)@, old(ppu)@, *cart, mode).cpu,
            final(ppu)@ == spec_lda_step(old(self)@, old(ppu)@, *cart, mode).ppu,
            final(self)@.wf(),
            final(ppu)@.wf(),
            final(self)@.total_cycles == old(self)@.total_cycles,
            final(self)@.extra_cycles <= 1,
            !crate::opcodes::spec_mode_can_cross(mode) ==> final(self)@.extra_cycles == 0,
    {
        proof {
            reveal(spec_lda_step);
        }
        let (data, _addr) = self.fetch_instruction_data(cart, ppu, mode, true);
        self.acc = data;
        self.examine_status(data);
    }

    pub fn ldx<M: Mapper>(&mut self, cart: &Cartridge<M>, ppu: &mut Ricoh2c02, mode: AddressingMode)
        requires
            old(self)@.wf(),
            old(ppu)@.wf(),
            cart.wf(),
        ensures
            final(self)@ == spec_ldx_step(old(self)@, old(ppu)@, *cart, mode).cpu,
            final(ppu)@ == spec_ldx_step(old(self)@, old(ppu)@, *cart, mode).ppu,
            final(self)@.wf(),
            final(ppu)@.wf(),
            final(self)@.total_cycles == old(self)@.total_cycles,
            final(self)@.extra_cycles <= 1,
            !crate::opcodes::spec_mode_can_cross(mode) ==> final(self)@.extra_cycles == 0,
    {
        proof {
            reveal(spec_ldx_step);
        }
        let (data, _addr) = self.fetch_instruction_data(cart, ppu, mode, true);
        self.ind_x = data;
        self.examine_status(data);
    }

    pub fn ldy<M: Mapper>(&mut self, cart: &Cartridge<M>, ppu: &mut Ricoh2c02, mode: AddressingMode)
        requires
            old(self)@.wf(),
            old(ppu)@.wf(),
            cart.wf(),
        ensures
            final(self)@ == spec_ldy_step(old(self)@, old(ppu)@, *cart, mode).cpu,
            final(ppu)@ == spec_ldy_step(old(self)@, old(ppu)@, *cart, mode).ppu,
            final(self)@.wf(),
            final(ppu)@.wf(),
            final(self)@.total_cycles == old(self)@.total_cycles,
            final(self)@.extra_cycles <= 1,
            !crate::opcodes::spec_mode_can_cross(mode) ==> final(self)@.extra_cycles == 0,
    {
        proof {
            reveal(spec_ldy_step);
        }
        let (data, _addr) = self.fetch_instruction_data(cart, ppu, mode, true);
        self.ind_y = data;
        self.examine_status(data);
    }

    /// Handler for AND, ORA and EOR.
    pub fn logic<M: Mapper>(
        &mut self,
        cart: &Cartridge<M>,
        ppu: &mut Ricoh2c02,
        mode: AddressingMode,
        op: LogicOp,
    )
        requires
            old(self)@.wf(),
            old(ppu)@.wf(),
            cart.wf(),
        ensures
            final(self)@ == spec_logic_step(old(self)@, old(ppu)@, *cart, mode, op).cpu,
            final(ppu)@ == spec_logic_step(old(self)@, old(ppu)@, *cart, mode, op).ppu,
            final(self)@.wf(),
            final(ppu)@.wf(),
            final(self)@.total_cycles == old(self)@.total_cycles,
            final(self)@.extra_cycles <= 1,
            !crate::opcodes::spec_mode_can_cross(mode) ==> final(self)@.extra_cycles == 0,
    {
        proof {
            reveal(spec_logic_step);
        }
        let (data, _addr) = self.fetch_instruction_data(cart, ppu, mode, true);
        let res = match op {
            LogicOp::And => self.acc & data,
            LogicOp::Ora => self.acc | data,
            LogicOp::Eor => self.acc ^ data,
        };
        self.acc = res;
        self.examine_status(res);
    }

    pub fn bit<M: Mapper>(&mut self, cart: &Cartridge<M>, ppu: &mut Ricoh2c02, mode: AddressingMode)
        requires
            old(self)@.wf(),
            old(ppu)@.wf(),
            cart.wf(),
        ensures
            final(self)@ == spec_bit_step(old(self)@, old(ppu)@, *cart, mode).cpu,
            final(ppu)@ == spec_bit_step(old(self)@, old(ppu)@, *cart, mode).ppu,
            final(self)@.wf(),
            final(ppu)@.wf(),
            final(self)@.total_cycles == old(self)@.total_cycles,
            final(self)@.extra_cycles <= 1,
            !crate::opcodes::spec_mode_can_cross(mode) ==> final(self)@.extra_cycles == 0,
    {
        proof {
            reveal(spec_bit_step);
        }
        let (data, _addr) = self.fetch_instruction_data(cart, ppu, mode, true);
        self.stat = (self.stat & 0x3d) | (data & 0xc0) | (if self.acc & data == 0 {
            0x02
        } else {
            0
        });
    }

    /// Handler for CMP, CPX and CPY: `reg` is the register's value.
    pub fn compare<M: Mapper>(
        &mut self,
        cart: &Cartridge<M>,
        ppu: &mut Ricoh2c02,
        mode: AddressingMode,
        reg: u8,
    )
        requires
            old(self)@.wf(),
            old(ppu)@.wf(),
            cart.wf(),
        ensures
            final(self)@ == spec_compare_step(old(self)@, old(ppu)@, *cart, mode, reg).cpu,
            final(ppu)@ == spec_compare_step(old(self)@, old(ppu)@, *cart, mode, reg).ppu,
            final(self)@.wf(),
            final(ppu)@.wf(),
            final(self)@.total_cycles == old(self)@.total_cycles,
            final(self)@.extra_cycles <= 1,
            !crate::opcodes::spec_mode_can_cross(mode) ==> final(self)@.extra_cycles == 0,
    {
        proof {
            reveal(spec_compare_step);
        }
        let (data, _addr) = self.fetch_instruction_data(cart, ppu, mode, true);
        let diff: u8 = ((reg as u16 + 256 - data as u16) % 256) as u8;
        self.stat = set_flags_nzc(self.stat, diff >= 128, reg == data, reg >= data);
    }

    /// Handler for ASL, LSR, ROL and ROR.
    pub fn shift<M: Mapper>(
        &mut self,
        cart: &Cartridge<M>,
        ppu: &mut Ricoh2c02,
        mode: AddressingMode,
        op: ShiftOp,
    )
        requires
            old(self)@.wf(),
            old(ppu)@.wf(),
            cart.wf(),
        ensures
            final(self)@ == spec_shift_step(old(self)@, old(ppu)@, *cart, mode, op).cpu,
            final(ppu)@ == spec_shift_step(old(self)@, old(ppu)@, *cart, mode, op).ppu,
            final(self)@.wf(),
            final(ppu)@.wf(),
            final(self)@.total_cycles == old(self)@.total_cycles,
            final(self)@.extra_cycles <= 1,
            final(self)@.extra_cycles == 0,
    {
        proof {
            reveal(spec_shift_step);
        }
        let (data, addr) = self.fetch_instruction_data(cart, ppu, mode, false);
        let cin: u16 = if self.stat & 0x01 == 0x01 {
            1
        } else {
            0
        };
        let (res, c): (u8, bool) = match op {
            ShiftOp::Asl => (((data as u16 * 2) % 256) as u8, data >= 128),
            ShiftOp::Lsr => (data / 2, data % 2 == 1),
            ShiftOp::Rol => (((data as u16 * 2 + cin) % 256) as u8, data >= 128),
            ShiftOp::Ror => (data / 2 + (if self.stat & 0x01 == 0x01 { 128 } else { 0 }), data % 2 == 1),
        };
        if let AddressingMode::Accumulator = mode {
            self.acc = res;
        } else {
            self.bus_write(cart, ppu, addr, res);
        }
        self.stat = set_flags_nzc(self.stat, res >= 128, res == 0, c);
    }

    /// Handler for INC and DEC.
    pub fn incdec<M: Mapper>(
        &mut self,
        cart: &Cartridge<M>,
        ppu: &mut Ricoh2c02,
        mode: AddressingMode,
        dec: bool,
    )
        requires
            old(self)@.wf(),
            old(ppu)@.wf(),
            cart.wf(),
        ensures
            final(self)@ == spec_incdec_step(old(self)@, old(ppu)@, *cart, mode, dec).cpu,
            final(ppu)@ == spec_incdec_step(old(self)@, old(ppu)@, *cart, mode, dec).ppu,
            final(self)@.wf(),
            final(ppu)@.wf(),
            final(self)@.total_cycles == old(self)@.total_cycles,
            final(self)@.extra_cycles <= 1,
            final(self)@.extra_cycles == 0,
    {
        proof {
            reveal(spec_incdec_step);
        }
        let (data, addr) = self.fetch_instruction_data(cart, ppu, mode, false);
        let res: u8 = if dec {
            ((data as u16 + 255) % 256) as u8
        } else {
            ((data as u16 + 1) % 256) as u8
        };
        self.bus_write(cart, ppu, addr, res);
        self.examine_status(res);
    }

    /// Handler for STA, STX and STY: `reg` is the register's value.
    pub fn store<M: Mapper>(
        &mut self,
        cart: &Cartridge<M>,
        ppu: &mut Ricoh2c02,
        mode: AddressingMode,
        reg: u8,
    )
        requires
            old(self)@.wf(),
            old(ppu)@.wf(),
            cart.wf(),
        ensures
            final(self)@ == spec_store_step(old(self)@, old(ppu)@, *cart, mode, reg).cpu,
            final(ppu)@ == spec_store_step(old(self)@, old(ppu)@, *cart, mode, reg).ppu,
            final(self)@.wf(),
            final(ppu)@.wf(),
            final(self)@.total_cycles == old(self)@.total_cycles,
            final(self)@.extra_cycles <= 1,
            final(self)@.extra_cycles == 0,
    {
        proof {
            reveal(spec_store_step);
        }
        let (_data, addr) = self.fetch_instruction_data(cart, ppu, mode, false);
        self.bus_write(cart, ppu, addr, reg);
    }

    /// Handler for NOP, which still consumes its operand bytes.
    pub fn nop<M: Mapper>(&mut self, cart: &Cartridge<M>, ppu: &mut Ricoh2c02, mode: AddressingMode)
        requires
            old(self)@.wf(),
            old(ppu)@.wf(),
            cart.wf(),
        ensures
            final(self)@ == spec_nop_step(old(self)@, old(ppu)@, *cart, mode).cpu,
            final(ppu)@ == spec_nop_step(old(self)@, old(ppu)@, *cart, mode).ppu,
            final(self)@.wf(),
            final(ppu)@.wf(),
            final(self)@.total_cycles == old(self)@.total_cycles,
            final(self)@.extra_cycles <= 1,
            !crate::opcodes::spec_mode_can_cross(mode) ==> final(self)@.extra_cycles == 0,
    {
        proof {
            reveal(spec_nop_step);
        }
        let (_data, _addr) = self.fetch_instruction_data(cart, ppu, mode, true);
    }

    /// Handler for all eight branches: `selector` picks the status bit and
    /// `expected` the value on which the branch is taken.
    pub fn branch<M: Mapper>(
        &mut self,
        cart: &Cartridge<M>,
        ppu: &mut Ricoh2c02,
        selector: u8,
        expected: u8,
    )
        requires
            old(self)@.wf(),
            old(ppu)@.wf(),
            cart.wf(),
        ensures
            final(self)@ == spec_branch_step(old(self)@, old(ppu)@, *cart, selector, expected).cpu,
            final(ppu)@ == spec_branch_step(old(self)@, old(ppu)@, *cart, selector, expected).ppu,
            final(self)@.wf(),
            final(ppu)@.wf(),
            final(self)@.total_cycles == old(self)@.total_cycles,
            final(self)@.extra_cycles <= 2,
    {
        proof {
            reveal(spec_branch_step);
        }
        let off = self.bus_read(cart, ppu, self.prg_cnt);
        self.prg_cnt = step16(self.prg_cnt, 1);
        self.extra_cycles = 0;
        let flag = if selector == 0 {
            self.stat & 0x80 == 0x80
        } else if selector == 1 {
            self.stat & 0x40 == 0x40
        } else if selector == 2 {
            self.stat & 0x01 == 0x01
        } else {
            self.stat & 0x02 == 0x02
        };
        if flag == (expected == 1) {
            let target = ((self.prg_cnt as u32 + (if off < 128 {
                off as u32
            } else {
                off as u32 + 0xff00
            })) % 0x10000) as u16;
            self.extra_cycles = if target / 256 == self.prg_cnt / 256 {
                1
            } else {
                2
            };
            self.prg_cnt = target;
        }
    }

    pub fn jmp<M: Mapper>(&mut self, cart: &Cartridge<M>, ppu: &mut Ricoh2c02, mode: AddressingMode)
        requires
            old(self)@.wf(),
            old(ppu)@.wf(),
            cart.wf(),
        ensures
            final(self)@ == spec_jmp_step(old(self)@, old(ppu)@, *cart, mode).cpu,
            final(ppu)@ == spec_jmp_step(old(self)@, old(ppu)@, *cart, mode).ppu,
            final(self)@.wf(),
            final(ppu)@.wf(),
            final(self)@.total_cycles == old(self)@.total_cycles,
            final(self)@.extra_cycles == old(self)@.extra_cycles,
    {
        proof {
            reveal(spec_jmp_step);
        }
        let lo = self.bus_read(cart, ppu, self.prg_cnt);
        let hi = self.bus_read(cart, ppu, step16(self.prg_cnt, 1));
        if let AddressingMode::Absolute = mode {
            self.prg_cnt = (hi as u16) * 256 + lo as u16;
        } else {
            let ptr = (hi as u16) * 256 + lo as u16;
            let hi_at = if ptr % 256 == 255 {
                ptr - 255
            } else {
                ptr + 1
            };
            let tlo = self.bus_read(cart, ppu, ptr);
            let thi = self.bus_read(cart, ppu, hi_at);
            self.prg_cnt = (thi as u16) * 256 + tlo as u16;
        }
    }

    pub fn jsr<M: Mapper>(&mut self, cart: &Cartridge<M>, ppu: &mut Ricoh2c02)
        requires
            old(self)@.wf(),
            old(ppu)@.wf(),
            cart.wf(),
        ensures
            final(self)@ == spec_jsr_step(old(self)@, old(ppu)@, *cart).cpu,
            final(ppu)@ == spec_jsr_step(old(self)@, old(ppu)@, *cart).ppu,
            final(self)@.wf(),
            final(ppu)@.wf(),
            final(self)@.total_cycles == old(self)@.total_cycles,
            final(self)@.extra_cycles == old(self)@.extra_cycles,
    {
        proof {
            reveal(spec_jsr_step);
        }
        let lo = self.bus_read(cart, ppu, self.prg_cnt);
        let hi = self.bus_read(cart, ppu, step16(self.prg_cnt, 1));
        let ret = step16(self.prg_cnt, 1);
        self.push((ret / 256) as u8);
        self.push((ret % 256) as u8);
        self.prg_cnt = (hi as u16) * 256 + lo as u16;
    }

    pub fn rts(&mut self)
        requires
            old(self)@.wf(),
        ensures
            final(self)@ == spec_rts_step(old(self)@),
            final(self)@.wf(),
            final(self)@.extra_cycles == old(self)@.extra_cycles,
    {
        let lo = self.pull();
        let hi = self.pull();
        self.prg_cnt = step16((hi as u16) * 256 + lo as u16, 1);
    }

    pub fn brk<M: Mapper>(&mut self, cart: &Cartridge<M>, ppu: &mut Ricoh2c02)
        requires
            old(self)@.wf(),
            old(ppu)@.wf(),
            cart.wf(),
        ensures
            final(self)@ == spec_brk_step(old(self)@, old(ppu)@, *cart).cpu,
            final(ppu)@ == spec_brk_step(old(self)@, old(ppu)@, *cart).ppu,
            final(self)@.wf(),
            final(ppu)@.wf(),
            final(self)@.total_cycles == old(self)@.total_cycles,
            final(self)@.extra_cycles == old(self)@.extra_cycles,
    {
        proof {
            reveal(spec_brk_step);
        }
        let pc1 = step16(self.prg_cnt, 1);
        let stat0 = self.stat;
        self.push((pc1 / 256) as u8);
        self.push((pc1 % 256) as u8);
        self.push(stat0 | 0x30);
        let lo = self.bus_read(cart, ppu, 0xfffe);
        let hi = self.bus_read(cart, ppu, 0xffff);
        self.prg_cnt = (hi as u16) * 256 + lo as u16;
        self.stat = stat0 | 0x04;
    }

    pub fn rti(&mut self)
        requires
            old(self)@.wf(),
        ensures
            final(self)@ == spec_rti_step(old(self)@),
            final(self)@.wf(),
            final(self)@.extra_cycles == old(self)@.extra_cycles,
    {
        let s = self.pull();
        let lo = self.pull();
        let hi = self.pull();
        self.stat = (s & 0xef) | 0x20;
        self.prg_cnt = (hi as u16) * 256 + lo as u16;
    }

    pub fn pla(&mut self)
        requires
            old(self)@.wf(),
        ensures
            final(self)@ == spec_pla_step(old(self)@),
            final(self)@.wf(),
            final(self)@.extra_cycles == old(self)@.extra_cycles,
    {
        let v = self.pull();
        self.acc = v;
        self.examine_status(v);
    }

    pub fn plp(&mut self)
        requires
            old(self)@.wf(),
        ensures
            final(self)@ == spec_plp_step(old(self)@),
            final(self)@.wf(),
            final(self)@.extra_cycles == old(self)@.extra_cycles,
    {
        let v = self.pull();
        self.stat = (v & 0xef) | 0x20;
    }

    /// AND a mask into the status register: the CLC/CLD/CLI/CLV handler.
    pub fn clear(&mut self, mask: u8)
        ensures
            final(self)@ == (CpuView { stat: old(self)@.stat & mask, ..old(self)@ }),
    {
        self.stat = self.stat & mask;
    }

    /// OR a mask into the status register: the SEC/SED/SEI handler.
    pub fn set(&mut self, mask: u8)
        ensures
            final(self)@ == (CpuView { stat: old(self)@.stat | mask, ..old(self)@ }),
    {
        self.stat = self.stat | mask;
    }

    pub fn tax(&mut self)
        ensures
            final(self)@ == (CpuView {
                ind_x: old(self)@.acc,
                stat: set_nz(old(self)@.stat, old(self)@.acc >= 128, old(self)@.acc == 0),
                ..old(self)@
            }),
    {
        self.ind_x = self.acc;
        self.examine_status(self.ind_x);
    }

    pub fn tay(&mut self)
        ensures
            final(self)@ == (CpuView {
                ind_y: old(self)@.acc,
                stat: set_nz(old(self)@.stat, old(self)@.acc >= 128, old(self)@.acc == 0),
                ..old(self)@
            }),
    {
        self.ind_y = self.acc;
        self.examine_status(self.ind_y);
    }

    pub fn tsx(&mut self)
        ensures
            final(self)@ == (CpuView {
                ind_x: old(self)@.stck_pnt,
                stat: set_nz(old(self)@.stat, old(self)@.stck_pnt >= 128, old(self)@.stck_pnt == 0),
                ..old(self)@
            }),
    {
        self.ind_x = self.stck_pnt;
        self.examine_status(self.ind_x);
    }

    pub fn txa(&mut self)
        ensures
            final(self)@ == (CpuView {
                acc: old(self)@.ind_x,
                stat: set_nz(old(self)@.stat, old(self)@.ind_x >= 128, old(self)@.ind_x == 0),
                ..old(self)@
            }),
    {
        self.acc = self.ind_x;
        self.examine_status(self.acc);
    }

    /// TXS sets no flags.
    pub fn txs(&mut self)
        ensures
            final(self)@ == (CpuView { stck_pnt: old(self)@.ind_x, ..old(self)@ }),
    {
        self.stck_pnt = self.ind_x;
    }

    pub fn tya(&mut self)
        ensures
            final(self)@ == (CpuView {
                acc: old(self)@.ind_y,
                stat: set_nz(old(self)@.stat, old(self)@.ind_y >= 128, old(self)@.ind_y == 0),
                ..old(self)@
            }),
    {
        self.acc = self.ind_y;
        self.examine_status(self.acc);
    }

    pub fn inx(&mut self)
        ensures
            final(self)@ == (CpuView {
                ind_x: wrap8(old(self)@.ind_x + 1),
                stat: set_nz(
                    old(self)@.stat,
                    wrap8(old(self)@.ind_x + 1) >= 128,
                    wrap8(old(self)@.ind_x + 1) == 0,
                ),
                ..old(self)@
            }),
    {
        self.ind_x = ((self.ind_x as u16 + 1) % 256) as u8;
        self.examine_status(self.ind_x);
    }

    pub fn iny(&mut self)
        ensures
            final(self)@ == (CpuView {
                ind_y: wrap8(old(self)@.ind_y + 1),
                stat: set_nz(
                    old(self)@.stat,
                    wrap8(old(self)@.ind_y + 1) >= 128,
                    wrap8(old(self)@.ind_y + 1) == 0,
                ),
                ..old(self)@
            }),
    {
        self.ind_y = ((self.ind_y as u16 + 1) % 256) as u8;
        self.examine_status(self.ind_y);
    }

    pub fn dex(&mut self)
        ensures
            final(self)@ == (CpuView {
                ind_x: wrap8(old(self)@.ind_x + 255),
                stat: set_nz(
                    old(self)@.stat,
                    wrap8(old(self)@.ind_x + 255) >= 128,
                    wrap8(old(self)@.ind_x + 255) == 0,
                ),
                ..old(self)@
            }),
    {
        self.ind_x = ((self.ind_x as u16 + 255) % 256) as u8;
        self.examine_status(self.ind_x);
    }

    pub fn dey(&mut self)
        ensures
            final(self)@ == (CpuView {
                ind_y: wrap8(old(self)@.ind_y + 255),
                stat: set_nz(
                    old(self)@.stat,
                    wrap8(old(self)@.ind_y + 255) >= 128,
                    wrap8(old(self)@.ind_y + 255) == 0,
                ),
                ..old(self)@
            }),
    {
        self.ind_y = ((self.ind_y as u16 + 255) % 256) as u8;
        self.examine_status(self.ind_y);
    }
}

} // verus!
