//! The top-level interpreter: fetch the opcode through the bus, look it up
//! in the fixed table, dispatch to its handler, and account the cycles —
//! the base count from the table plus any page-cross or branch extras. The
//! whole step is proved equal to a mathematical step function, and the
//! cycle count is pinned exactly: an opcode with a single fixed cost takes
//! its base count, an unassigned opcode takes one cycle and only advances
//! the program counter past itself.

use vstd::prelude::*;

use crate::cartridge::{Cartridge, Mapper};
use crate::cpu::{spec_bus_read, wrap16, CpuView, Mos6502};
use crate::cpu_fetch::step16;
use crate::cpu_ops::{spec_adc_step, spec_bit_step, spec_branch_step, spec_brk_step,
    spec_compare_step, spec_incdec_step, spec_jmp_step, spec_jsr_step, spec_lda_step,
    spec_ldx_step, spec_ldy_step, spec_logic_step, spec_nop_step, spec_pla_step, spec_plp_step,
    spec_push, spec_rti_step, spec_rts_step, spec_shift_step, spec_store_step, LogicOp, Machine,
    ShiftOp};
use crate::flags::set_nz;
use crate::opcodes::{base_cycles, decode, lemma_base_cycles_bounds, spec_base_cycles, spec_decode,
    spec_fixed_cycle_instr, spec_fixed_cycle_opcode, Instruction};
use crate::ppu::Ricoh2c02;

verus! {

/// The effect of the operation an opcode byte decodes to, applied to the
/// state in which the opcode has been consumed. Unassigned opcodes change
/// nothing further.
pub open spec fn spec_dispatch<M: Mapper>(
    cpu1: CpuView,
    ppu1: crate::ppu::PpuView,
    cart: Cartridge<M>,
    i: Instruction,
    op: u8,
) -> Machine {
    match i {
        Instruction::Adc(m) => spec_adc_step(cpu1, ppu1, cart, m, false),
        Instruction::And(m) => spec_logic_step(cpu1, ppu1, cart, m, LogicOp::And),
        Instruction::Asl(m) => spec_shift_step(cpu1, ppu1, cart, m, ShiftOp::Asl),
        Instruction::Bcc(_) => spec_branch_step(cpu1, ppu1, cart, (op >> 6), ((op >> 5) & 1)),
        Instruction::Bcs(_) => spec_branch_step(cpu1, ppu1, cart, (op >> 6), ((op >> 5) & 1)),
        Instruction::Beq(_) => spec_branch_step(cpu1, ppu1, cart, (op >> 6), ((op >> 5) & 1)),
        Instruction::Bit(m) => spec_bit_step(cpu1, ppu1, cart, m),
        Instruction::Bmi(_) => spec_branch_step(cpu1, ppu1, cart, (op >> 6), ((op >> 5) & 1)),
        Instruction::Bne(_) => spec_branch_step(cpu1, ppu1, cart, (op >> 6), ((op >> 5) & 1)),
        Instruction::Bpl(_) => spec_branch_step(cpu1, ppu1, cart, (op >> 6), ((op >> 5) & 1)),
        Instruction::Brk(_) => spec_brk_step(cpu1, ppu1, cart),
        Instruction::Bvc(_) => spec_branch_step(cpu1, ppu1, cart, (op >> 6), ((op >> 5) & 1)),
        Instruction::Bvs(_) => spec_branch_step(cpu1, ppu1, cart, (op >> 6), ((op >> 5) & 1)),
        Instruction::Clc(_) => Machine { cpu: CpuView { stat: cpu1.stat & 0xfe, ..cpu1 }, ppu: ppu1 },
        Instruction::Cld(_) => Machine { cpu: CpuView { stat: cpu1.stat & 0xf7, ..cpu1 }, ppu: ppu1 },
        Instruction::Cli(_) => Machine { cpu: CpuView { stat: cpu1.stat & 0xfb, ..cpu1 }, ppu: ppu1 },
        Instruction::Clv(_) => Machine { cpu: CpuView { stat: cpu1.stat & 0xbf, ..cpu1 }, ppu: ppu1 },
        Instruction::Cmp(m) => spec_compare_step(cpu1, ppu1, cart, m, cpu1.acc),
        Instruction::Cpx(m) => spec_compare_step(cpu1, ppu1, cart, m, cpu1.ind_x),
        Instruction::Cpy(m) => spec_compare_step(cpu1, ppu1, cart, m, cpu1.ind_y),
        Instruction::Dec(m) => spec_incdec_step(cpu1, ppu1, cart, m, true),
        Instruction::Dex(_) => Machine {
            cpu: CpuView {
                ind_x: crate::cpu::wrap8(cpu1.ind_x + 255),
                stat: set_nz(
                    cpu1.stat,
                    crate::cpu::wrap8(cpu1.ind_x + 255) >= 128,
                    crate::cpu::wrap8(cpu1.ind_x + 255) == 0,
                ),
                ..cpu1
            },
            ppu: ppu1,
        },
        Instruction::Dey(_) => Machine {
            cpu: CpuView {
                ind_y: crate::cpu::wrap8(cpu1.ind_y + 255),
                stat: set_nz(
                    cpu1.stat,
                    crate::cpu::wrap8(cpu1.ind_y + 255) >= 128,
                    crate::cpu::wrap8(cpu1.ind_y + 255) == 0,
                ),
                ..cpu1
            },
            ppu: ppu1,
        },
        Instruction::Eor(m) => spec_logic_step(cpu1, ppu1, cart, m, LogicOp::Eor),
        Instruction::Inc(m) => spec_incdec_step(cpu1, ppu1, cart, m, false),
        Instruction::Inx(_) => Machine {
            cpu: CpuView {
                ind_x: crate::cpu::wrap8(cpu1.ind_x + 1),
                stat: set_nz(
                    cpu1.stat,
                    crate::cpu::wrap8(cpu1.ind_x + 1) >= 128,
                    crate::cpu::wrap8(cpu1.ind_x + 1) == 0,
                ),
                ..cpu1
            },
            ppu: ppu1,
        },
        Instruction::Iny(_) => Machine {
            cpu: CpuView {
                ind_y: crate::cpu::wrap8(cpu1.ind_y + 1),
                stat: set_nz(
                    cpu1.stat,
                    crate::cpu::wrap8(cpu1.ind_y + 1) >= 128,
                    crate::cpu::wrap8(cpu1.ind_y + 1) == 0,
                ),
                ..cpu1
            },
            ppu: ppu1,
        },
        Instruction::Jmp(m) => spec_jmp_step(cpu1, ppu1, cart, m),
        Instruction::Jsr(_) => spec_jsr_step(cpu1, ppu1, cart),
        Instruction::Lda(m) => spec_lda_step(cpu1, ppu1, cart, m),
        Instruction::Ldx(m) => spec_ldx_step(cpu1, ppu1, cart, m),
        Instruction::Ldy(m) => spec_ldy_step(cpu1, ppu1, cart, m),
        Instruction::Lsr(m) => spec_shift_step(cpu1, ppu1, cart, m, ShiftOp::Lsr),
        Instruction::Nop(m) => spec_nop_step(cpu1, ppu1, cart, m),
        Instruction::Ora(m) => spec_logic_step(cpu1, ppu1, cart, m, LogicOp::Ora),
        Instruction::Pha(_) => Machine { cpu: spec_push(cpu1, cpu1.acc), ppu: ppu1 },
        Instruction::Php(_) => Machine { cpu: spec_push(cpu1, cpu1.stat), ppu: ppu1 },
        Instruction::Pla(_) => Machine { cpu: spec_pla_step(cpu1), ppu: ppu1 },
        Instruction::Plp(_) => Machine { cpu: spec_plp_step(cpu1), ppu: ppu1 },
        Instruction::Rol(m) => spec_shift_step(cpu1, ppu1, cart, m, ShiftOp::Rol),
        Instruction::Ror(m) => spec_shift_step(cpu1, ppu1, cart, m, ShiftOp::Ror),
        Instruction::Rti(_) => Machine { cpu: spec_rti_step(cpu1), ppu: ppu1 },
        Instruction::Rts(_) => Machine { cpu: spec_rts_step(cpu1), ppu: ppu1 },
        Instruction::Sbc(m) => spec_adc_step(cpu1, ppu1, cart, m, true),
        Instruction::Sec(_) => Machine { cpu: CpuView { stat: cpu1.stat | 0x01, ..cpu1 }, ppu: ppu1 },
        Instruction::Sed(_) => Machine { cpu: CpuView { stat: cpu1.stat | 0x08, ..cpu1 }, ppu: ppu1 },
        Instruction::Sei(_) => Machine { cpu: CpuView { stat: cpu1.stat | 0x04, ..cpu1 }, ppu: ppu1 },
        Instruction::Sta(m) => spec_store_step(cpu1, ppu1, cart, m, cpu1.acc),
        Instruction::Stx(m) => spec_store_step(cpu1, ppu1, cart, m, cpu1.ind_x),
        Instruction::Sty(m) => spec_store_step(cpu1, ppu1, cart, m, cpu1.ind_y),
        Instruction::Tax(_) => Machine {
            cpu: CpuView {
                ind_x: cpu1.acc,
                stat: set_nz(cpu1.stat, cpu1.acc >= 128, cpu1.acc == 0),
                ..cpu1
            },
            ppu: ppu1,
        },
        Instruction::Tay(_) => Machine {
            cpu: CpuView {
                ind_y: cpu1.acc,
                stat: set_nz(cpu1.stat, cpu1.acc >= 128, cpu1.acc == 0),
                ..cpu1
            },
            ppu: ppu1,
        },
        Instruction::Tsx(_) => Machine {
            cpu: CpuView {
                ind_x: cpu1.stck_pnt,
                stat: set_nz(cpu1.stat, cpu1.stck_pnt >= 128, cpu1.stck_pnt == 0),
                ..cpu1
            },
            ppu: ppu1,
        },
        Instruction::Txa(_) => Machine {
            cpu: CpuView {
                acc: cpu1.ind_x,
                stat: set_nz(cpu1.stat, cpu1.ind_x >= 128, cpu1.ind_x == 0),
                ..cpu1
            },
            ppu: ppu1,
        },
        Instruction::Txs(_) => Machine { cpu: CpuView { stck_pnt: cpu1.ind_x, ..cpu1 }, ppu: ppu1 },
        Instruction::Tya(_) => Machine {
            cpu: CpuView {
                acc: cpu1.ind_y,
                stat: set_nz(cpu1.stat, cpu1.ind_y >= 128, cpu1.ind_y == 0),
                ..cpu1
            },
            ppu: ppu1,
        },
        Instruction::Nai => Machine { cpu: cpu1, ppu: ppu1 },
    }
}

/// One whole instruction as a mathematical function: the machine after it,
/// and the cycles it consumed.
pub open spec fn spec_execute<M: Mapper>(
    cpu: CpuView,
    ppu: crate::ppu::PpuView,
    cart: Cartridge<M>,
) -> (Machine, int) {
    let (op, ppu1) = spec_bus_read(cpu, ppu, cart, cpu.prg_cnt);
    let cpu1 = CpuView { prg_cnt: wrap16(cpu.prg_cnt + 1), extra_cycles: 0, ..cpu };
    let m = spec_dispatch(cpu1, ppu1, cart, spec_decode(op), op);
    let cycles: int = if spec_decode(op) is Nai {
        1
    } else {
        spec_base_cycles(op) + m.cpu.extra_cycles
    };
    (
        Machine {
            cpu: CpuView { total_cycles: (m.cpu.total_cycles + cycles) as u64, ..m.cpu },
            ppu: m.ppu,
        },
        cycles,
    )
}

/// The read-class family of the dispatch split.
pub open spec fn spec_is_read_family(i: Instruction) -> bool {
    ||| i is Adc
    ||| i is And
    ||| i is Bit
    ||| i is Cmp
    ||| i is Cpx
    ||| i is Cpy
    ||| i is Eor
    ||| i is Lda
    ||| i is Ldx
    ||| i is Ldy
    ||| i is Ora
    ||| i is Sbc
}

/// The write and read-modify-write family of the dispatch split.
pub open spec fn spec_is_rmw_family(i: Instruction) -> bool {
    ||| i is Asl
    ||| i is Dec
    ||| i is Inc
    ||| i is Lsr
    ||| i is Nop
    ||| i is Rol
    ||| i is Ror
    ||| i is Sta
    ||| i is Stx
    ||| i is Sty
}

/// The flow family of the dispatch split.
pub open spec fn spec_is_flow_family(i: Instruction) -> bool {
    ||| i is Bcc
    ||| i is Bcs
    ||| i is Beq
    ||| i is Bmi
    ||| i is Bne
    ||| i is Bpl
    ||| i is Brk
    ||| i is Bvc
    ||| i is Bvs
    ||| i is Jmp
    ||| i is Jsr
    ||| i is Pha
    ||| i is Php
    ||| i is Pla
    ||| i is Plp
    ||| i is Rti
    ||| i is Rts
}

/// The reg family of the dispatch split.
pub open spec fn spec_is_reg_family(i: Instruction) -> bool {
    ||| i is Clc
    ||| i is Cld
    ||| i is Cli
    ||| i is Clv
    ||| i is Dex
    ||| i is Dey
    ||| i is Inx
    ||| i is Iny
    ||| i is Nai
    ||| i is Sec
    ||| i is Sed
    ||| i is Sei
    ||| i is Tax
    ||| i is Tay
    ||| i is Tsx
    ||| i is Txa
    ||| i is Txs
    ||| i is Tya
}

impl Mos6502 {
    /// Dispatch for the read-class operations that resolve an addressing mode.
    #[verifier::rlimit(100)]
    fn dispatch_read<M: Mapper>(
        &mut self,
        cart: &Cartridge<M>,
        ppu: &mut Ricoh2c02,
        instr: Instruction,
        op: u8,
    )
        requires
            old(self)@.wf(),
            old(ppu)@.wf(),
            cart.wf(),
            old(self)@.extra_cycles == 0,
            spec_is_read_family(instr),
        ensures
            final(self)@ == spec_dispatch(old(self)@, old(ppu)@, *cart, instr, op).cpu,
            final(ppu)@ == spec_dispatch(old(self)@, old(ppu)@, *cart, instr, op).ppu,
            final(self)@.wf(),
            final(ppu)@.wf(),
            final(self)@.extra_cycles <= 2,
            final(self)@.total_cycles == old(self)@.total_cycles,
            spec_fixed_cycle_instr(instr) ==> final(self)@.extra_cycles == 0,
    {
        match instr {
            Instruction::Adc(m) => self.adc(cart, ppu, m),
            Instruction::And(m) => self.logic(cart, ppu, m, LogicOp::And),
            Instruction::Bit(m) => self.bit(cart, ppu, m),
            Instruction::Cmp(m) => self.compare(cart, ppu, m, self.acc),
            Instruction::Cpx(m) => self.compare(cart, ppu, m, self.ind_x),
            Instruction::Cpy(m) => self.compare(cart, ppu, m, self.ind_y),
            Instruction::Eor(m) => self.logic(cart, ppu, m, LogicOp::Eor),
            Instruction::Lda(m) => self.lda(cart, ppu, m),
            Instruction::Ldx(m) => self.ldx(cart, ppu, m),
            Instruction::Ldy(m) => self.ldy(cart, ppu, m),
            Instruction::Ora(m) => self.logic(cart, ppu, m, LogicOp::Ora),
            Instruction::Sbc(m) => self.sbc(cart, ppu, m),
            _ => {},
        }
    }
    /// Dispatch for the write and read-modify-write operations that resolve
    /// an addressing mode.
    #[verifier::rlimit(100)]
    fn dispatch_rmw<M: Mapper>(
        &mut self,
        cart: &Cartridge<M>,
        ppu: &mut Ricoh2c02,
        instr: Instruction,
        op: u8,
    )
        requires
            old(self)@.wf(),
            old(ppu)@.wf(),
            cart.wf(),
            old(self)@.extra_cycles == 0,
            spec_is_rmw_family(instr),
        ensures
            final(self)@ == spec_dispatch(old(self)@, old(ppu)@, *cart, instr, op).cpu,
            final(ppu)@ == spec_dispatch(old(self)@, old(ppu)@, *cart, instr, op).ppu,
            final(self)@.wf(),
            final(ppu)@.wf(),
            final(self)@.extra_cycles <= 2,
            final(self)@.total_cycles == old(self)@.total_cycles,
            spec_fixed_cycle_instr(instr) ==> final(self)@.extra_cycles == 0,
    {
        match instr {
            Instruction::Asl(m) => self.shift(cart, ppu, m, ShiftOp::Asl),
            Instruction::Dec(m) => self.incdec(cart, ppu, m, true),
            Instruction::Inc(m) => self.incdec(cart, ppu, m, false),
            Instruction::Lsr(m) => self.shift(cart, ppu, m, ShiftOp::Lsr),
            Instruction::Nop(m) => self.nop(cart, ppu, m),
            Instruction::Rol(m) => self.shift(cart, ppu, m, ShiftOp::Rol),
            Instruction::Ror(m) => self.shift(cart, ppu, m, ShiftOp::Ror),
            Instruction::Sta(m) => self.store(cart, ppu, m, self.acc),
            Instruction::Stx(m) => self.store(cart, ppu, m, self.ind_x),
            Instruction::Sty(m) => self.store(cart, ppu, m, self.ind_y),
            _ => {},
        }
    }


    /// Dispatch for the control-flow and stack operations.
    #[verifier::rlimit(100)]
    fn dispatch_flow<M: Mapper>(
        &mut self,
        cart: &Cartridge<M>,
        ppu: &mut Ricoh2c02,
        instr: Instruction,
        op: u8,
    )
        requires
            old(self)@.wf(),
            old(ppu)@.wf(),
            cart.wf(),
            old(self)@.extra_cycles == 0,
            spec_is_flow_family(instr),
        ensures
            final(self)@ == spec_dispatch(old(self)@, old(ppu)@, *cart, instr, op).cpu,
            final(ppu)@ == spec_dispatch(old(self)@, old(ppu)@, *cart, instr, op).ppu,
            final(self)@.wf(),
            final(ppu)@.wf(),
            final(self)@.extra_cycles <= 2,
            final(self)@.total_cycles == old(self)@.total_cycles,
            spec_fixed_cycle_instr(instr) ==> final(self)@.extra_cycles == 0,
    {
        match instr {
            Instruction::Bcc(_) | Instruction::Bcs(_) | Instruction::Beq(_) | Instruction::Bmi(_)
                | Instruction::Bne(_) | Instruction::Bpl(_) | Instruction::Bvc(_)
                | Instruction::Bvs(_) => self.branch(cart, ppu, op >> 6, (op >> 5) & 1),
            Instruction::Brk(_) => self.brk(cart, ppu),
            Instruction::Jmp(m) => self.jmp(cart, ppu, m),
            Instruction::Jsr(_) => self.jsr(cart, ppu),
            Instruction::Pha(_) => self.push(self.acc),
            Instruction::Php(_) => self.push(self.stat),
            Instruction::Pla(_) => self.pla(),
            Instruction::Plp(_) => self.plp(),
            Instruction::Rti(_) => self.rti(),
            Instruction::Rts(_) => self.rts(),
            _ => {},
        }
    }

    /// Dispatch for the register-to-register operations and the unassigned opcodes.
    #[verifier::rlimit(100)]
    fn dispatch_reg<M: Mapper>(
        &mut self,
        cart: &Cartridge<M>,
        ppu: &mut Ricoh2c02,
        instr: Instruction,
        op: u8,
    )
        requires
            old(self)@.wf(),
            old(ppu)@.wf(),
            cart.wf(),
            old(self)@.extra_cycles == 0,
            spec_is_reg_family(instr),
        ensures
            final(self)@ == spec_dispatch(old(self)@, old(ppu)@, *cart, instr, op).cpu,
            final(ppu)@ == spec_dispatch(old(self)@, old(ppu)@, *cart, instr, op).ppu,
            final(self)@.wf(),
            final(ppu)@.wf(),
            final(self)@.extra_cycles <= 2,
            final(self)@.total_cycles == old(self)@.total_cycles,
            spec_fixed_cycle_instr(instr) ==> final(self)@.extra_cycles == 0,
    {
        match instr {
            Instruction::Clc(_) => self.clear(0xfe),
            Instruction::Cld(_) => self.clear(0xf7),
            Instruction::Cli(_) => self.clear(0xfb),
            Instruction::Clv(_) => self.clear(0xbf),
            Instruction::Dex(_) => self.dex(),
            Instruction::Dey(_) => self.dey(),
            Instruction::Inx(_) => self.inx(),
            Instruction::Iny(_) => self.iny(),
            Instruction::Sec(_) => self.set(0x01),
            Instruction::Sed(_) => self.set(0x08),
            Instruction::Sei(_) => self.set(0x04),
            Instruction::Tax(_) => self.tax(),
            Instruction::Tay(_) => self.tay(),
            Instruction::Tsx(_) => self.tsx(),
            Instruction::Txa(_) => self.txa(),
            Instruction::Txs(_) => self.txs(),
            Instruction::Tya(_) => self.tya(),
            _ => {},
        }
    }

    /// Dispatch a decoded opcode to its handler; reports whether the opcode
    /// byte was unassigned (in which case nothing is dispatched). The four
    /// handler families go through one function each, which keeps every
    /// proof context small.
    fn dispatch<M: Mapper>(
        &mut self,
        cart: &Cartridge<M>,
        ppu: &mut Ricoh2c02,
        instr: Instruction,
        op: u8,
    ) -> (unassigned: bool)
        requires
            old(self)@.wf(),
            old(ppu)@.wf(),
            cart.wf(),
            old(self)@.extra_cycles == 0,
        ensures
            final(self)@ == spec_dispatch(old(self)@, old(ppu)@, *cart, instr, op).cpu,
            final(ppu)@ == spec_dispatch(old(self)@, old(ppu)@, *cart, instr, op).ppu,
            final(self)@.wf(),
            final(ppu)@.wf(),
            final(self)@.extra_cycles <= 2,
            final(self)@.total_cycles == old(self)@.total_cycles,
            spec_fixed_cycle_instr(instr) ==> final(self)@.extra_cycles == 0,
            unassigned == (instr is Nai),
    {
        match instr {
            Instruction::Adc(_) | Instruction::Sbc(_) | Instruction::And(_) | Instruction::Ora(_)
                | Instruction::Eor(_) | Instruction::Bit(_) | Instruction::Cmp(_)
                | Instruction::Cpx(_) | Instruction::Cpy(_) | Instruction::Lda(_)
                | Instruction::Ldx(_) | Instruction::Ldy(_) => {
                self.dispatch_read(cart, ppu, instr, op);
                false
            },
            Instruction::Asl(_) | Instruction::Lsr(_) | Instruction::Rol(_) | Instruction::Ror(_)
                | Instruction::Inc(_) | Instruction::Dec(_) | Instruction::Sta(_)
                | Instruction::Stx(_) | Instruction::Sty(_) | Instruction::Nop(_) => {
                self.dispatch_rmw(cart, ppu, instr, op);
                false
            },
            Instruction::Bcc(_) | Instruction::Bcs(_) | Instruction::Beq(_) | Instruction::Bmi(_)
                | Instruction::Bne(_) | Instruction::Bpl(_) | Instruction::Bvc(_)
                | Instruction::Bvs(_) | Instruction::Brk(_) | Instruction::Jmp(_)
                | Instruction::Jsr(_) | Instruction::Rti(_) | Instruction::Rts(_)
                | Instruction::Pha(_) | Instruction::Php(_) | Instruction::Pla(_)
                | Instruction::Plp(_) => {
                self.dispatch_flow(cart, ppu, instr, op);
                false
            },
            _ => {
                self.dispatch_reg(cart, ppu, instr, op);
                matches!(instr, Instruction::Nai)
            },
        }
    }

    /// Execute one instruction: read the opcode byte at the program counter
    /// through the bus, advance past it, dispatch through the fixed table,
    /// and return the cycles consumed — the table's base count plus any
    /// page-cross or branch-taken extras, or one cycle for an unassigned
    /// opcode, which changes nothing else. The caller paces the picture
    /// processor by this return value.
    pub fn execute_instruction<M: Mapper>(&mut self, cart: &Cartridge<M>, ppu: &mut Ricoh2c02) -> (r:
        u8)
        requires
            old(self)@.wf(),
            old(ppu)@.wf(),
            cart.wf(),
            old(self)@.total_cycles + 10 <= u64::MAX,
        ensures
            final(self)@ == spec_execute(old(self)@, old(ppu)@, *cart).0.cpu,
            final(ppu)@ == spec_execute(old(self)@, old(ppu)@, *cart).0.ppu,
            r as int == spec_execute(old(self)@, old(ppu)@, *cart).1,
            final(self)@.wf(),
            final(ppu)@.wf(),
            1 <= r <= 10,
            ({
                let op = spec_bus_read(old(self)@, old(ppu)@, *cart, old(self)@.prg_cnt).0;
                &&& (spec_decode(op) is Nai <==> r == 1)
                &&& !(spec_decode(op) is Nai) ==> r >= 2
                &&& spec_fixed_cycle_opcode(op) ==> r == spec_base_cycles(op)
            }),
    {
        let ghost cpu0 = old(self)@;
        let ghost ppu0 = old(ppu)@;
        let op = self.bus_read(cart, ppu, self.prg_cnt);
        self.prg_cnt = step16(self.prg_cnt, 1);
        self.extra_cycles = 0;
        proof {
            assert(self@ =~= (CpuView {
                prg_cnt: wrap16(cpu0.prg_cnt + 1),
                extra_cycles: 0,
                ..cpu0
            }));
        }
        let instr = decode(op);
        let unassigned = self.dispatch(cart, ppu, instr, op);
        proof {
            lemma_base_cycles_bounds(op);
        }
        let cycles: u8 = if unassigned {
            1
        } else {
            base_cycles(op) + self.extra_cycles
        };
        self.total_cycles = self.total_cycles + cycles as u64;
        cycles
    }
}

} // verus!
