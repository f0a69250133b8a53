use vstd::prelude::*;
use crate::cpu::interrupts::InterruptType;
use crate::constants::MAX_CYCLES_PER_FRAME;
use super::ppu::{lemma_mode_bits, stat_interrupt, Ppu, MODE_OAM, MODE_VBLANK, MODE_XFER};

verus! {

/// The PPU after `n` dots.
pub open spec fn ppu_run(p: Ppu, n: nat) -> Ppu
    decreases n,
{
    if n == 0 {
        p
    } else {
        ppu_run(p, (n - 1) as nat).spec_tick().0
    }
}

/// The interrupts raised over `n` dots, in order.
pub open spec fn ppu_run_ints(p: Ppu, n: nat) -> Seq<InterruptType>
    decreases n,
{
    if n == 0 {
        seq![]
    } else {
        ppu_run_ints(p, (n - 1) as nat) + ppu_run(p, (n - 1) as nat).spec_tick().1
    }
}

/// How many V-blank interrupts `ints` holds.
pub open spec fn count_vblank(ints: Seq<InterruptType>) -> nat
    decreases ints.len(),
{
    if ints.len() == 0 {
        0
    } else {
        count_vblank(ints.drop_last()) + if ints.last() == InterruptType::VBlank {
            1nat
        } else {
            0nat
        }
    }
}

/// The dot at which the PPU leaves `mode`.
pub open spec fn mode_end(mode: u8) -> u32 {
    if mode == MODE_OAM {
        80
    } else if mode == MODE_XFER {
        252
    } else {
        456
    }
}

/// The PPU is at dot 0 of a line in `mode` with LY equal to `ly`.
pub open spec fn at_line_start(p: Ppu, mode: u8, ly: u8) -> bool {
    p.wf() && p.line_ticks == 0 && p.mode() == mode && p.ly() == ly
}

proof fn lemma_count_add(a: Seq<InterruptType>, b: Seq<InterruptType>)
    ensures
        count_vblank(a + b) == count_vblank(a) + count_vblank(b),
    decreases b.len(),
{
    if b.len() == 0 {
        assert(a + b =~= a);
    } else {
        lemma_count_add(a, b.drop_last());
        assert((a + b).drop_last() =~= a + b.drop_last());
    }
}

proof fn lemma_run_add(p: Ppu, a: nat, b: nat)
    ensures
        ppu_run(p, a + b) == ppu_run(ppu_run(p, a), b),
        ppu_run_ints(p, a + b) == ppu_run_ints(p, a) + ppu_run_ints(ppu_run(p, a), b),
    decreases b,
{
    if b == 0 {
        assert(ppu_run_ints(p, a) + seq![] =~= ppu_run_ints(p, a));
    } else {
        lemma_run_add(p, a, (b - 1) as nat);
        assert(a + b - 1 == a + (b - 1));
        let q = ppu_run(p, a);
        assert(ppu_run_ints(p, a) + ppu_run_ints(q, b) =~= ppu_run_ints(p, a) + ppu_run_ints(
            q,
            (b - 1) as nat,
        ) + ppu_run(q, (b - 1) as nat).spec_tick().1);
    }
}

proof fn lemma_run_wf(p: Ppu, n: nat)
    requires
        p.wf(),
    ensures
        ppu_run(p, n).wf(),
    decreases n,
{
    if n > 0 {
        lemma_run_wf(p, (n - 1) as nat);
        ppu_run(p, (n - 1) as nat).lemma_tick_keeps_wf();
    }
}

/// Within a mode, dots only advance the dot counter.
proof fn lemma_within_mode(p: Ppu, k: nat)
    requires
        p.mode() < 4,
        p.line_ticks + k < mode_end(p.mode()),
    ensures
        ppu_run(p, k) == (Ppu { line_ticks: (p.line_ticks + k) as u32, ..p }),
        ppu_run_ints(p, k) == Seq::<InterruptType>::empty(),
    decreases k,
{
    if k > 0 {
        lemma_within_mode(p, (k - 1) as nat);
        assert(ppu_run_ints(p, k) =~= Seq::<InterruptType>::empty());
    }
}

/// A visible line lasts 456 dots: from dot 0 of line `ly` in mode 2 the
/// PPU reaches dot 0 of line `ly + 1`, in mode 2 again or, after the last
/// visible line, in V-blank; the V-blank interrupt is raised exactly when
/// the line reached is line 144.
pub proof fn lemma_visible_line(p: Ppu)
    requires
        at_line_start(p, MODE_OAM, p.ly()),
    ensures
        at_line_start(
            ppu_run(p, 456),
            if p.ly() + 1 < 144 {
                MODE_OAM
            } else {
                MODE_VBLANK
            },
            (p.ly() + 1) as u8,
        ),
        count_vblank(ppu_run_ints(p, 456)) == if p.ly() + 1 == 144 {
            1nat
        } else {
            0nat
        },
{
    // Mode 2: dots 0..80.
    lemma_within_mode(p, 79);
    let a = ppu_run(p, 79);
    lemma_mode_bits(a.lcd[1]);
    lemma_run_add(p, 79, 1);
    let b = ppu_run(p, 80);
    assert(b == a.spec_tick().0);
    // Mode 3: dots 80..252.
    lemma_mode_bits(b.lcd[1]);
    lemma_within_mode(b, 171);
    let c = ppu_run(b, 171);
    lemma_run_add(b, 171, 1);
    let d = ppu_run(b, 172);
    assert(d == c.spec_tick().0);
    lemma_mode_bits(d.lcd[1]);
    // Mode 0: dots 252..456.
    lemma_within_mode(d, 203);
    let e = ppu_run(d, 203);
    lemma_run_add(d, 203, 1);
    let f = ppu_run(d, 204);
    assert(f == e.spec_tick().0);
    let (q, first) = Ppu { line_ticks: 456, ..e }.spec_increment_ly();
    lemma_mode_bits(e.lcd[1]);
    lemma_mode_bits(q.lcd[1]);
    lemma_run_add(p, 80, 172);
    lemma_run_add(p, 252, 204);
    lemma_run_wf(p, 456);
    assert(count_vblank(first) == 0) by {
        reveal_with_fuel(count_vblank, 2);
    }
    assert(ppu_run_ints(p, 80) =~= a.spec_tick().1);
    assert(ppu_run_ints(b, 172) =~= c.spec_tick().1);
    assert(ppu_run_ints(d, 204) =~= e.spec_tick().1);
    assert(count_vblank(a.spec_tick().1) == 0);
    assert(count_vblank(c.spec_tick().1) == 0) by {
        reveal_with_fuel(count_vblank, 2);
    }
    lemma_count_add(ppu_run_ints(p, 80), ppu_run_ints(b, 172));
    lemma_count_add(ppu_run_ints(p, 252), ppu_run_ints(d, 204));
    if q.lcd[4] >= 144 {
        let r = q.with_mode(MODE_VBLANK);
        lemma_count_add(
            first + seq![InterruptType::VBlank],
            stat_interrupt(r.lcd[1], 0x10),
        );
        lemma_count_add(first, seq![InterruptType::VBlank]);
        assert(count_vblank(seq![InterruptType::VBlank]) == 1) by {
            reveal_with_fuel(count_vblank, 2);
        }
        assert(count_vblank(stat_interrupt(r.lcd[1], 0x10)) == 0) by {
            reveal_with_fuel(count_vblank, 2);
        }
    } else {
        let r = q.with_mode(MODE_OAM);
        lemma_count_add(first, stat_interrupt(r.lcd[1], 0x20));
        assert(count_vblank(stat_interrupt(r.lcd[1], 0x20)) == 0) by {
            reveal_with_fuel(count_vblank, 2);
        }
    }
}

/// A V-blank line lasts 456 dots: from dot 0 of line `ly` in mode 1 the
/// PPU reaches dot 0 of line `ly + 1` in mode 1, or after line 153 dot 0
/// of line 0 in mode 2; no V-blank interrupt is raised.
pub proof fn lemma_vblank_line(p: Ppu)
    requires
        at_line_start(p, MODE_VBLANK, p.ly()),
    ensures
        at_line_start(
            ppu_run(p, 456),
            if p.ly() + 1 < 154 {
                MODE_VBLANK
            } else {
                MODE_OAM
            },
            if p.ly() + 1 < 154 {
                (p.ly() + 1) as u8
            } else {
                0
            },
        ),
        count_vblank(ppu_run_ints(p, 456)) == 0,
{
    lemma_mode_bits(p.lcd[1]);
    lemma_within_mode(p, 455);
    let a = ppu_run(p, 455);
    lemma_run_add(p, 455, 1);
    let (q, first) = Ppu { line_ticks: 456, ..a }.spec_increment_ly();
    lemma_mode_bits(q.lcd[1]);
    lemma_run_wf(p, 456);
    assert(ppu_run_ints(p, 456) =~= a.spec_tick().1);
    assert(count_vblank(first) == 0) by {
        reveal_with_fuel(count_vblank, 2);
    }
}

/// After `k` visible lines from the top of a frame the PPU is at dot 0 of
/// line `k`, and it has raised the V-blank interrupt only on reaching line
/// 144.
proof fn lemma_visible_lines(p: Ppu, k: nat)
    requires
        at_line_start(p, MODE_OAM, 0),
        k <= 144,
    ensures
        at_line_start(ppu_run(p, 456 * k), if k < 144 { MODE_OAM } else { MODE_VBLANK }, k as u8),
        count_vblank(ppu_run_ints(p, 456 * k)) == if k == 144 {
            1nat
        } else {
            0nat
        },
    decreases k,
{
    if k > 0 {
        lemma_visible_lines(p, (k - 1) as nat);
        let q = ppu_run(p, 456 * (k - 1) as nat);
        lemma_visible_line(q);
        lemma_run_add(p, 456 * (k - 1) as nat, 456);
        assert(456 * (k - 1) as nat + 456 == 456 * k);
        lemma_count_add(ppu_run_ints(p, 456 * (k - 1) as nat), ppu_run_ints(q, 456));
    }
}

/// After the 144 visible lines and `k` V-blank lines the PPU is at dot 0
/// of line `144 + k` in V-blank, or back at the top of the frame after the
/// tenth.
proof fn lemma_vblank_lines(p: Ppu, k: nat)
    requires
        at_line_start(p, MODE_VBLANK, 144),
        k <= 10,
    ensures
        at_line_start(
            ppu_run(p, 456 * k),
            if k < 10 { MODE_VBLANK } else { MODE_OAM },
            if k < 10 { (144 + k) as u8 } else { 0 },
        ),
        count_vblank(ppu_run_ints(p, 456 * k)) == 0,
    decreases k,
{
    if k == 0 {
        reveal_with_fuel(count_vblank, 1);
    } else {
        lemma_vblank_lines(p, (k - 1) as nat);
        let q = ppu_run(p, 456 * (k - 1) as nat);
        lemma_vblank_line(q);
        lemma_run_add(p, 456 * (k - 1) as nat, 456);
        assert(456 * (k - 1) as nat + 456 == 456 * k);
        lemma_count_add(ppu_run_ints(p, 456 * (k - 1) as nat), ppu_run_ints(q, 456));
    }
}

/// A frame lasts 154 lines of 456 dots (70224 dots, the T-cycles of a
/// frame): from dot 0 of line 0 the PPU returns to dot 0 of line 0 in mode
/// 2 and raises the V-blank interrupt exactly once on the way.
pub proof fn lemma_frame(p: Ppu)
    requires
        at_line_start(p, MODE_OAM, 0),
    ensures
        at_line_start(ppu_run(p, MAX_CYCLES_PER_FRAME as nat), MODE_OAM, 0),
        count_vblank(ppu_run_ints(p, MAX_CYCLES_PER_FRAME as nat)) == 1,
{
    lemma_visible_lines(p, 144);
    let q = ppu_run(p, 456 * 144);
    lemma_vblank_lines(q, 10);
    lemma_run_add(p, 456 * 144, 456 * 10);
    lemma_count_add(ppu_run_ints(p, 456 * 144), ppu_run_ints(q, 456 * 10));
}

} // verus!
