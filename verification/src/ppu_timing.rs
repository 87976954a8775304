//! The picture processor's scanline/dot state machine: 262 scanlines of 341
//! dots each (the pre-render scanline one dot shorter on odd frames), the
//! vblank flag raised at dot 1 of scanline 241 and cleared at dot 1 of the
//! pre-render scanline 261, and the edge-triggered non-maskable interrupt.

use vstd::prelude::*;

use crate::ppu::{PpuView, Ricoh2c02};

verus! {

/// How many dots the current scanline has.
pub open spec fn spec_scanline_len(p: PpuView) -> int {
    if p.scanline == 261 && p.odd_frame {
        340
    } else {
        341
    }
}

/// One dot of the state machine: advance the position, then apply the event
/// attached to the position reached. Reaching dot 1 of scanline 241 raises
/// the vblank flag — unless a status read just suppressed it — and raises
/// the interrupt edge if NMI output is enabled; reaching dot 1 of the
/// pre-render scanline clears the vblank and sprite status flags. Frame
/// parity flips when the pre-render scanline wraps around.
pub open spec fn spec_dot(p: PpuView) -> PpuView {
    let q = if p.cycle + 1 < spec_scanline_len(p) {
        PpuView { cycle: (p.cycle + 1) as u16, ..p }
    } else if p.scanline == 261 {
        PpuView { scanline: 0, cycle: 0, odd_frame: !p.odd_frame, ..p }
    } else {
        PpuView { scanline: (p.scanline + 1) as u16, cycle: 0, ..p }
    };
    if q.scanline == 241 && q.cycle == 1 {
        if q.suppress_vblank {
            PpuView { suppress_vblank: false, ..q }
        } else {
            PpuView {
                status: q.status | 0x80,
                pending_nmi: q.pending_nmi || q.ctrl & 0x80 != 0,
                suppress_vblank: false,
                ..q
            }
        }
    } else if q.scanline == 261 && q.cycle == 1 {
        PpuView { status: q.status & 0x1f, ..q }
    } else {
        q
    }
}

/// The state machine advanced by `n` dots.
pub open spec fn spec_run(p: PpuView, n: nat) -> PpuView
    decreases n,
{
    if n == 0 {
        p
    } else {
        spec_dot(spec_run(p, (n - 1) as nat))
    }
}

/// Advancing dot by dot composes: running `a + b` dots is running `a`, then
/// `b`. This is what lets the effect of many timing-advance calls be read
/// off one accumulated dot count.
pub proof fn lemma_run_adds(p: PpuView, a: nat, b: nat)
    ensures
        spec_run(p, a + b) == spec_run(spec_run(p, a), b),
    decreases b,
{
    if b > 0 {
        lemma_run_adds(p, a, (b - 1) as nat);
    }
}

/// Any number of dots keeps the state well formed.
pub proof fn lemma_run_wf(p: PpuView, n: nat)
    requires
        p.wf(),
    ensures
        spec_run(p, n).wf(),
    decreases n,
{
    if n > 0 {
        lemma_run_wf(p, (n - 1) as nat);
    }
}

/// Dots in the pre-render scanline of the frame the walk starts in.
pub open spec fn spec_pre_render_len(v0: PpuView) -> int {
    if v0.odd_frame {
        340
    } else {
        341
    }
}

/// The dot count, from the first dot of the pre-render scanline, at which
/// the vblank flag is raised: the rest of the pre-render scanline, 241
/// scanlines of 341 dots each (82181 dots), and one more dot into scanline
/// 241.
pub open spec fn spec_vblank_dot(v0: PpuView) -> int {
    spec_pre_render_len(v0) + 82182
}

/// The last dot count for which the walk characterisation below holds: the
/// walk stays inside the frame it entered, through the last dot of scanline
/// 260 (261 scanlines of 341 dots past the pre-render scanline, 89001 dots,
/// less one).
pub open spec fn spec_walk_max(v0: PpuView) -> int {
    spec_pre_render_len(v0) + 89000
}

/// The fields the walk never touches.
spec fn walk_fields_keep(v0: PpuView, q: PpuView) -> bool {
    &&& q.vram == v0.vram
    &&& q.primary_oam == v0.primary_oam
    &&& q.secondary_oam == v0.secondary_oam
    &&& q.read_buffer == v0.read_buffer
    &&& q.ctrl == v0.ctrl
    &&& q.mask == v0.mask
    &&& q.oam_addr == v0.oam_addr
    &&& q.v_addr == v0.v_addr
    &&& q.t_addr == v0.t_addr
    &&& q.fine_x == v0.fine_x
    &&& q.write_toggle == v0.write_toggle
}

/// Full characterisation of the state `n` dots into a walk that starts at
/// the first dot of the pre-render scanline: the position advances linearly
/// through the frame, the status flags are cleared at dot 1 of the
/// pre-render scanline and the vblank bit raised at dot 1 of scanline 241,
/// and the interrupt edge is pending from that dot on exactly when NMI
/// output is enabled.
spec fn walk_state_ok(v0: PpuView, n: int, q: PpuView) -> bool {
    &&& q.wf()
    &&& if q.scanline == 261 {
        q.cycle == n && q.odd_frame == v0.odd_frame
    } else {
        &&& spec_pre_render_len(v0) + q.scanline * 341 + q.cycle == n
        &&& q.odd_frame == !v0.odd_frame
        &&& q.scanline <= 260
    }
    &&& q.status == if n == 0 {
        v0.status
    } else if n < spec_vblank_dot(v0) {
        v0.status & 0x1f
    } else {
        (v0.status & 0x1f) | 0x80
    }
    &&& q.pending_nmi == (n >= spec_vblank_dot(v0) && v0.ctrl & 0x80 != 0)
    &&& !q.suppress_vblank
    &&& walk_fields_keep(v0, q)
}

/// The induction behind the vblank laws: walking dot by dot from the first
/// dot of the pre-render scanline matches the characterisation above.
proof fn lemma_frame_walk(v0: PpuView, n: nat)
    requires
        v0.wf(),
        v0.scanline == 261,
        v0.cycle == 0,
        !v0.pending_nmi,
        !v0.suppress_vblank,
        n <= spec_walk_max(v0),
    ensures
        walk_state_ok(v0, n as int, spec_run(v0, n)),
    decreases n,
{
    if n > 0 {
        lemma_frame_walk(v0, (n - 1) as nat);
        let q = spec_run(v0, (n - 1) as nat);
        let r = spec_dot(q);
        assert(spec_run(v0, n) == r);
        if q.scanline != 261 && q.cycle + 1 >= 341 {
            assert(r.scanline == q.scanline + 1 && r.cycle == 0);
            assert(spec_pre_render_len(v0) + (q.scanline + 1) * 341
                == spec_pre_render_len(v0) + q.scanline * 341 + 341) by (nonlinear_arith);
        }
    }
}

/// Entering vertical blank: from the first dot of the pre-render scanline,
/// the vblank flag is down (and no interrupt edge pending) until the walk
/// reaches dot 1 of scanline 241, and from that dot on the flag is up and
/// the edge is pending exactly when NMI output was already enabled.
pub proof fn lemma_vblank_start(v0: PpuView, n: nat)
    requires
        v0.wf(),
        v0.scanline == 261,
        v0.cycle == 0,
        !v0.pending_nmi,
        !v0.suppress_vblank,
        1 <= n <= spec_walk_max(v0),
    ensures
        n < spec_vblank_dot(v0) ==> {
            &&& spec_run(v0, n).status & 0x80 == 0
            &&& !spec_run(v0, n).pending_nmi
        },
        n >= spec_vblank_dot(v0) ==> {
            &&& spec_run(v0, n).status & 0x80 == 0x80
            &&& spec_run(v0, n).pending_nmi == (v0.ctrl & 0x80 != 0)
        },
{
    lemma_frame_walk(v0, n);
    let s = v0.status;
    assert((s & 0x1f) & 0x80 == 0 && ((s & 0x1f) | 0x80) & 0x80 == 0x80) by (bit_vector);
}

/// No second edge within one vertical-blank period: once the pending edge
/// has been consumed, further dots that stay inside the blanking scanlines
/// (at or past dot 1 of scanline 241, at most the last dot of scanline 260)
/// raise no new edge and leave the status flags, vblank included, exactly as
/// they were.
pub proof fn lemma_no_second_edge(q0: PpuView, n: nat)
    requires
        q0.wf(),
        !q0.pending_nmi,
        !q0.suppress_vblank,
        241 <= q0.scanline <= 260,
        q0.scanline == 241 ==> q0.cycle >= 1,
        (q0.scanline - 241) * 341 + q0.cycle + n <= 6819,
    ensures
        !spec_run(q0, n).pending_nmi,
        !spec_run(q0, n).suppress_vblank,
        spec_run(q0, n).status == q0.status,
        241 <= spec_run(q0, n).scanline <= 260,
        (spec_run(q0, n).scanline - 241) * 341 + spec_run(q0, n).cycle
            == (q0.scanline - 241) * 341 + q0.cycle + n,
        spec_run(q0, n).scanline == 241 ==> spec_run(q0, n).cycle >= 1,
        spec_run(q0, n).wf(),
    decreases n,
{
    lemma_run_wf(q0, n);
    if n > 0 {
        lemma_no_second_edge(q0, (n - 1) as nat);
        let q = spec_run(q0, (n - 1) as nat);
        let r = spec_dot(q);
        if q.cycle + 1 >= 341 {
            assert((q.scanline + 1 - 241) * 341 == (q.scanline - 241) * 341 + 341)
                by (nonlinear_arith);
        }
    }
}

impl Ricoh2c02 {
    /// One dot, executable mirror of `spec_dot`.
    fn advance_dot(&mut self)
        requires
            old(self)@.wf(),
        ensures
            final(self)@ == spec_dot(old(self)@),
            final(self)@.wf(),
    {
        let len: u16 = if self.current_scanline == 261 && self.odd_frame {
            340
        } else {
            341
        };
        if self.scanline_cycle + 1 < len {
            self.scanline_cycle = self.scanline_cycle + 1;
        } else if self.current_scanline == 261 {
            self.current_scanline = 0;
            self.scanline_cycle = 0;
            self.odd_frame = !self.odd_frame;
        } else {
            self.current_scanline = self.current_scanline + 1;
            self.scanline_cycle = 0;
        }
        if self.current_scanline == 241 && self.scanline_cycle == 1 {
            if self.suppress_vblank {
                self.suppress_vblank = false;
            } else {
                self.ppu_status = self.ppu_status | 0x80;
                if self.ppu_ctrl & 0x80 != 0 {
                    self.pending_nmi = true;
                }
            }
        } else if self.current_scanline == 261 && self.scanline_cycle == 1 {
            self.ppu_status = self.ppu_status & 0x1f;
        }
    }

    /// Advance the state machine by three dots per CPU cycle spent, and
    /// report whether an NMI edge is pending from this advance or from an
    /// earlier control-register write; reporting consumes the edge, so it is
    /// observed exactly once.
    pub fn generate_signal(&mut self, cpu_cycles: u8) -> (nmi: bool)
        requires
            old(self)@.wf(),
        ensures
            final(self)@.wf(),
            nmi == spec_run(old(self)@, 3 * cpu_cycles as nat).pending_nmi,
            final(self)@ == (PpuView {
                pending_nmi: false,
                ..spec_run(old(self)@, 3 * cpu_cycles as nat)
            }),
    {
        let ghost start = old(self)@;
        let total: u16 = 3 * cpu_cycles as u16;
        let mut i: u16 = 0;
        while i < total
            invariant
                i <= total,
                self@.wf(),
                self@ == spec_run(start, i as nat),
            decreases total - i,
        {
            self.advance_dot();
            i = i + 1;
        }
        let nmi = self.pending_nmi;
        self.pending_nmi = false;
        proof {
            assert(self@ =~= (PpuView {
                pending_nmi: false,
                ..spec_run(start, 3 * cpu_cycles as nat)
            }));
        }
        nmi
    }
}

} // verus!
