use crate::mapper::MapperState;
use crate::ppu::{PpuState, PRE_RENDER_LINE, SCANLINE_END_CYCLE};
use crate::render::lemma_scroll_steps_fit;
use vstd::prelude::*;

verus! {

/// Bit facts behind the reload of the scroll position: the two copies touch
/// disjoint bits, and an address that agrees with another in both groups of
/// bits is that address.
proof fn lemma_reload_bits(v: u16, t: u16)
    by (bit_vector)
    requires
        v <= 0x7FFF,
        t <= 0x7FFF,
    ensures
        ((v & 0xFBE0) | (t & 0x041F)) & 0x041F == t & 0x041F,
        ((v & 0x841F) | (t & 0x7BE0)) & 0x7BE0 == t & 0x7BE0,
        ((v & 0x841F) | (t & 0x7BE0)) & 0x041F == v & 0x041F,
        (v & 0x041F == t & 0x041F && v & 0x7BE0 == t & 0x7BE0) ==> v == t,
{
}

impl PpuState {
    /// The state after `n` dots with nothing else touching the unit.
    pub open spec fn ticks(self, mapper: MapperState, n: nat) -> PpuState
        decreases n,
    {
        if n == 0 {
            self
        } else {
            self.tick(mapper).0.ticks(mapper, (n - 1) as nat)
        }
    }

    /// Both scroll addresses fit in 15 bits and the beam is on the screen.
    pub open spec fn steady(self) -> bool {
        &&& self.registers.vram_addr <= 0x7FFF
        &&& self.registers.tmp_vram_addr <= 0x7FFF
        &&& self.scanline <= PRE_RENDER_LINE
        &&& self.scanline_cycle <= SCANLINE_END_CYCLE
    }

    /// What the dots leave alone: `t`, fine X, and the control and mask
    /// registers.
    pub open spec fn same_settings(self, other: PpuState) -> bool {
        &&& self.registers.tmp_vram_addr == other.registers.tmp_vram_addr
        &&& self.registers.fine_x == other.registers.fine_x
        &&& self.registers.control == other.registers.control
        &&& self.registers.mask == other.registers.mask
    }

    /// The unit is at dot `dot` of line `line`.
    pub open spec fn at(self, line: u32, dot: u32) -> bool {
        self.scanline == line && self.scanline_cycle == dot
    }

    /// On the pre-render line, past dot 257, the horizontal bits of `v` are
    /// those of `t`; past the first dot of the vertical reload the vertical
    /// bits are too.
    pub open spec fn reloading(self) -> bool {
        let v = self.registers.vram_addr;
        let t = self.registers.tmp_vram_addr;
        &&& self.steady()
        &&& self.rendering()
        &&& self.scanline == PRE_RENDER_LINE
        &&& 258 <= self.scanline_cycle <= 305
        &&& v & 0x041F == t & 0x041F
        &&& self.scanline_cycle > 280 ==> v & 0x7BE0 == t & 0x7BE0
    }

    /// Dots from dot 305 of the pre-render line to dot 305 of the next one.
    pub open spec fn frame_dots(self) -> nat {
        if !self.even_frame && self.rendering() {
            (262 * 341 - 1) as nat
        } else {
            262 * 341
        }
    }
}

/// A dot moves the beam on by one place and leaves the settings alone.
pub proof fn lemma_tick_moves_the_beam(ppu: PpuState, mapper: MapperState)
    requires
        ppu.steady(),
    ensures
        ({
            let next = ppu.tick(mapper).0;
            &&& next.steady()
            &&& next.same_settings(ppu)
            &&& ppu.scanline_cycle < ppu.line_end() ==> next.at(
                ppu.scanline,
                (ppu.scanline_cycle + 1) as u32,
            ) && next.even_frame == ppu.even_frame
            &&& ppu.scanline_cycle >= ppu.line_end() && ppu.scanline < PRE_RENDER_LINE ==> next.at(
                (ppu.scanline + 1) as u32,
                0,
            ) && next.even_frame == ppu.even_frame
            &&& ppu.scanline_cycle >= ppu.line_end() && ppu.scanline == PRE_RENDER_LINE ==> next.at(
                0,
                0,
            ) && next.even_frame == !ppu.even_frame
        }),
{
    let v = ppu.registers.vram_addr;
    let t = ppu.registers.tmp_vram_addr;
    lemma_scroll_steps_fit(v, t);
    if ppu.scanline < 240 && 1 <= ppu.scanline_cycle <= 256 {
        let across = if ppu.tile_column((ppu.scanline_cycle - 1) as u32) == 7 {
            crate::render::coarse_x_step(v)
        } else {
            v
        };
        lemma_scroll_steps_fit(across, t);
    }
}

/// Running `a + b` dots is running `a` dots and then `b`.
pub proof fn lemma_ticks_add(ppu: PpuState, mapper: MapperState, a: nat, b: nat)
    ensures
        ppu.ticks(mapper, a + b) == ppu.ticks(mapper, a).ticks(mapper, b),
    decreases a,
{
    if a > 0 {
        lemma_ticks_add(ppu.tick(mapper).0, mapper, (a - 1) as nat, b);
        assert(ppu.ticks(mapper, a + b) == ppu.tick(mapper).0.ticks(mapper, (a + b - 1) as nat));
    }
}

/// Within a line, `n` dots move the beam `n` places to the right.
pub proof fn lemma_along_a_line(ppu: PpuState, mapper: MapperState, n: nat)
    requires
        ppu.steady(),
        ppu.scanline_cycle + n <= ppu.line_end(),
    ensures
        ({
            let then = ppu.ticks(mapper, n);
            &&& then.steady()
            &&& then.same_settings(ppu)
            &&& then.at(ppu.scanline, (ppu.scanline_cycle + n) as u32)
            &&& then.even_frame == ppu.even_frame
        }),
    decreases n,
{
    if n > 0 {
        lemma_tick_moves_the_beam(ppu, mapper);
        lemma_along_a_line(ppu.tick(mapper).0, mapper, (n - 1) as nat);
    }
}

/// From the start of a line other than the pre-render line, 341 dots lead
/// to the start of the next line.
pub proof fn lemma_one_line(ppu: PpuState, mapper: MapperState)
    requires
        ppu.steady(),
        ppu.scanline < PRE_RENDER_LINE,
        ppu.scanline_cycle == 0,
    ensures
        ({
            let then = ppu.ticks(mapper, 341);
            &&& then.steady()
            &&& then.same_settings(ppu)
            &&& then.at((ppu.scanline + 1) as u32, 0)
            &&& then.even_frame == ppu.even_frame
        }),
{
    lemma_along_a_line(ppu, mapper, 340);
    let last = ppu.ticks(mapper, 340);
    lemma_tick_moves_the_beam(last, mapper);
    lemma_ticks_add(ppu, mapper, 340, 1);
    assert(last.ticks(mapper, 1) == last.tick(mapper).0) by {
        assert(last.tick(mapper).0.ticks(mapper, 0) == last.tick(mapper).0);
    }
}

/// From the start of a line, `lines` full lines later the beam is at the
/// start of the line that many further down, as long as that is not past
/// the pre-render line.
pub proof fn lemma_many_lines(ppu: PpuState, mapper: MapperState, lines: nat)
    requires
        ppu.steady(),
        ppu.scanline + lines <= PRE_RENDER_LINE,
        ppu.scanline_cycle == 0,
    ensures
        ({
            let then = ppu.ticks(mapper, lines * 341);
            &&& then.steady()
            &&& then.same_settings(ppu)
            &&& then.at((ppu.scanline + lines) as u32, 0)
            &&& then.even_frame == ppu.even_frame
        }),
    decreases lines,
{
    if lines > 0 {
        lemma_one_line(ppu, mapper);
        let next = ppu.ticks(mapper, 341);
        lemma_many_lines(next, mapper, (lines - 1) as nat);
        lemma_ticks_add(ppu, mapper, 341, ((lines - 1) * 341) as nat);
    }
}

proof fn lemma_reload_step(ppu: PpuState, mapper: MapperState)
    requires
        ppu.reloading(),
        ppu.scanline_cycle < 305,
    ensures
        ppu.tick(mapper).0.reloading(),
        ppu.tick(mapper).0.scanline_cycle == ppu.scanline_cycle + 1,
        ppu.tick(mapper).0.same_settings(ppu),
        ppu.tick(mapper).0.even_frame == ppu.even_frame,
{
    lemma_reload_bits(ppu.registers.vram_addr, ppu.registers.tmp_vram_addr);
    lemma_scroll_steps_fit(ppu.registers.vram_addr, ppu.registers.tmp_vram_addr);
}

proof fn lemma_reload_run(ppu: PpuState, mapper: MapperState, n: nat)
    requires
        ppu.reloading(),
        ppu.scanline_cycle + n == 305,
    ensures
        ppu.ticks(mapper, n).reloading(),
        ppu.ticks(mapper, n).scanline_cycle == 305,
        ppu.ticks(mapper, n).same_settings(ppu),
        ppu.ticks(mapper, n).even_frame == ppu.even_frame,
    decreases n,
{
    if n > 0 {
        lemma_reload_step(ppu, mapper);
        lemma_reload_run(ppu.tick(mapper).0, mapper, (n - 1) as nat);
    }
}

/// Every frame starts from the scroll position `t` holds. While rendering
/// is on, the 48 dots of the pre-render line from dot 257 on copy first the
/// horizontal and then the vertical bits of `t` into `v`, so that at dot
/// 305 `v` equals `t`, whatever the frame before did to `v`.
pub proof fn lemma_scroll_is_reloaded(ppu: PpuState, mapper: MapperState)
    requires
        ppu.steady(),
        ppu.rendering(),
        ppu.at(PRE_RENDER_LINE, 257),
    ensures
        ({
            let then = ppu.ticks(mapper, 48);
            &&& then.registers.vram_addr == ppu.registers.tmp_vram_addr
            &&& then.same_settings(ppu)
            &&& then.steady()
            &&& then.at(PRE_RENDER_LINE, 305)
            &&& then.even_frame == ppu.even_frame
        }),
{
    let v = ppu.registers.vram_addr;
    let t = ppu.registers.tmp_vram_addr;
    lemma_reload_bits(v, t);
    lemma_scroll_steps_fit(v, t);
    let first = ppu.tick(mapper).0;
    assert(first.reloading());
    lemma_reload_run(first, mapper, 47);
    let last = first.ticks(mapper, 47);
    assert(ppu.ticks(mapper, 48) == last);
    lemma_reload_bits(last.registers.vram_addr, last.registers.tmp_vram_addr);
}

/// After one frame of rendering the scroll position is back at `t`. Start
/// at dot 305 of the pre-render line with rendering on, and let a whole
/// frame pass without a write to the scroll registers: 262 lines of 341
/// dots, less the one dot an odd frame skips. The beam is back at dot 305
/// of the pre-render line, the frame parity has flipped, the settings are
/// the same, and `v` equals `t`.
pub proof fn lemma_scroll_returns_after_a_frame(ppu: PpuState, mapper: MapperState)
    requires
        ppu.steady(),
        ppu.rendering(),
        ppu.at(PRE_RENDER_LINE, 305),
    ensures
        ({
            let then = ppu.ticks(mapper, ppu.frame_dots());
            &&& then.registers.vram_addr == ppu.registers.tmp_vram_addr
            &&& then.same_settings(ppu)
            &&& then.steady()
            &&& then.at(PRE_RENDER_LINE, 305)
            &&& then.even_frame == !ppu.even_frame
        }),
{
    // to the last dot of the pre-render line, and over it
    let rest: nat = (ppu.line_end() - 305) as nat;
    lemma_along_a_line(ppu, mapper, rest);
    let last = ppu.ticks(mapper, rest);
    lemma_tick_moves_the_beam(last, mapper);
    let top = last.tick(mapper).0;
    assert(last.ticks(mapper, 1) == top) by {
        assert(top.ticks(mapper, 0) == top);
    }
    lemma_ticks_add(ppu, mapper, rest, 1);
    assert(top.at(0, 0) && top.even_frame == !ppu.even_frame);
    // down the 261 lines to the next pre-render line
    lemma_many_lines(top, mapper, 261);
    let bottom = top.ticks(mapper, 261 * 341);
    lemma_ticks_add(ppu, mapper, rest + 1, 261 * 341);
    // along it to the reload
    assert(bottom.line_end() >= 339);
    lemma_along_a_line(bottom, mapper, 257);
    let before = bottom.ticks(mapper, 257);
    lemma_ticks_add(ppu, mapper, rest + 1 + 261 * 341, 257);
    assert(before.rendering());
    lemma_scroll_is_reloaded(before, mapper);
    lemma_ticks_add(ppu, mapper, rest + 1 + 261 * 341 + 257, 48);
    assert(rest + 1 + 261 * 341 + 257 + 48 == ppu.frame_dots());
}

} // verus!
