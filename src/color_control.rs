//! The frame-based software PWM renderer.
//!
//! A frame is `STEPS_PER_FRAME` micro-steps long. At the start of each frame the rendering
//! colour is reloaded from the target HSV colour and snapped to `BRIGHTNESS_STEPS` bins. Each
//! render step lights every channel that still has brightness left, holds that pattern for as
//! long as the dimmest lit channel lasts, and takes that much brightness off every channel.
use vstd::prelude::*;

use crate::hsv_rgb_convert::{lemma_channels_in_range, rgb_of, Hsv, Rgb, UNIT};

verus! {

/// Micro-steps in one frame.
pub const STEPS_PER_FRAME: u32 = 100;

/// Length of one micro-step in microseconds.
pub const DURATION_PER_STEP_US: u32 = 100;

/// Timer ticks per microsecond (a 1 MHz timer).
pub const TICKS_PER_US: u32 = 1;

/// Number of brightness levels a channel is snapped to at the start of a frame.
pub const BRIGHTNESS_STEPS: u32 = 100;

/// Width of one brightness bin in units of `1 / UNIT`.
pub const BIN: u32 = UNIT / BRIGHTNESS_STEPS;

/// Ticks armed when an interval would come to zero ticks: a timer armed with zero never fires.
pub const MIN_TICKS: u32 = 2;

/// What one render step asks of the hardware: which channels to light, and how many timer
/// ticks until the next step.
#[derive(Clone, Copy, Debug, PartialEq, Eq, Structural)]
pub struct RenderStep {
    pub red_on: bool,
    pub green_on: bool,
    pub blue_on: bool,
    pub ticks: u32,
}

/// `x` clamped into [0, UNIT].
pub open spec fn clamp_unit(x: int) -> int {
    if x > UNIT {
        UNIT as int
    } else if x < 0 {
        0
    } else {
        x
    }
}

/// The nearest multiple of `BIN` to `x`; a tie goes down.
pub open spec fn quantized(x: int) -> int {
    let q = x / (BIN as int);
    if 2 * (x % (BIN as int)) > BIN {
        (q + 1) * BIN
    } else {
        q * BIN
    }
}

/// Each channel snapped to its nearest brightness bin.
pub open spec fn quantized_rgb(c: Rgb) -> Rgb {
    Rgb {
        r: quantized(c.r as int) as u32,
        g: quantized(c.g as int) as u32,
        b: quantized(c.b as int) as u32,
    }
}

/// Channel `i` of a colour: 0 is red, 1 green, 2 blue.
pub open spec fn channel(c: Rgb, i: int) -> int {
    if i == 0 {
        c.r as int
    } else if i == 1 {
        c.g as int
    } else {
        c.b as int
    }
}

/// The smaller of two values, ignoring a zero one.
pub open spec fn min_positive(a: int, b: int) -> int {
    if a == 0 {
        b
    } else if b == 0 {
        a
    } else if a <= b {
        a
    } else {
        b
    }
}

/// The smallest non-zero channel, or 0 when all three are zero.
pub open spec fn min_nonzero(c: Rgb) -> int {
    min_positive(min_positive(c.r as int, c.g as int), c.b as int)
}

/// `a - b`, clamped at zero.
pub open spec fn drained_level(a: int, b: int) -> int {
    if a > b {
        a - b
    } else {
        0
    }
}

/// Every channel lowered by `amount`, clamped at zero.
pub open spec fn drained(c: Rgb, amount: int) -> Rgb {
    Rgb {
        r: drained_level(c.r as int, amount) as u32,
        g: drained_level(c.g as int, amount) as u32,
        b: drained_level(c.b as int, amount) as u32,
    }
}

/// Whole micro-steps in a brightness fraction of a frame, rounded down.
pub open spec fn level_steps(level: int) -> int {
    level * STEPS_PER_FRAME / (UNIT as int)
}

/// Micro-steps the current pin pattern is held: as long as the dimmest lit channel lasts, or,
/// when that comes to nothing, the rest of the frame.
pub open spec fn interval_steps(c: Rgb, remaining: int) -> int {
    let steps = level_steps(min_nonzero(c));
    if steps == 0 {
        remaining
    } else {
        steps
    }
}

/// Timer ticks for an interval of `steps` micro-steps, never zero.
pub open spec fn interval_ticks(steps: int) -> int {
    let ticks = steps * DURATION_PER_STEP_US * TICKS_PER_US;
    if ticks == 0 {
        MIN_TICKS as int
    } else {
        ticks
    }
}

/// The rendering colour at the start of a frame: the target converted and snapped to bins.
pub open spec fn frame_color(target: Hsv) -> Rgb {
    quantized_rgb(rgb_of(target))
}

/// The rendering colour a step works on: at a frame boundary the target is reloaded.
pub open spec fn loaded_color(target: Hsv, cur: Rgb, remaining: int) -> Rgb {
    if remaining == 0 {
        frame_color(target)
    } else {
        cur
    }
}

/// The remaining micro-steps a step works on: a new frame at a frame boundary.
pub open spec fn loaded_remaining(remaining: int) -> int {
    if remaining == 0 {
        STEPS_PER_FRAME as int
    } else {
        remaining
    }
}

/// What one step asks of the hardware, from a loaded colour and remaining count.
pub open spec fn step_output(cur: Rgb, remaining: int) -> RenderStep {
    RenderStep {
        red_on: cur.r > 0,
        green_on: cur.g > 0,
        blue_on: cur.b > 0,
        ticks: interval_ticks(interval_steps(cur, remaining)) as u32,
    }
}

/// The rendering colour after one step from a loaded colour.
pub open spec fn step_color(cur: Rgb) -> Rgb {
    drained(cur, min_nonzero(cur))
}

/// The remaining micro-steps after one step from a loaded colour and remaining count.
pub open spec fn step_remaining(cur: Rgb, remaining: int) -> int {
    remaining - interval_steps(cur, remaining)
}

/// The state within a frame that the renderer keeps: every channel is a whole number of bins,
/// and no channel has more bins left than the frame has micro-steps.
pub open spec fn frame_wf(cur: Rgb, remaining: int) -> bool {
    &&& 0 <= remaining <= STEPS_PER_FRAME
    &&& cur.r % BIN == 0
    &&& cur.g % BIN == 0
    &&& cur.b % BIN == 0
    &&& cur.r <= remaining * BIN
    &&& cur.g <= remaining * BIN
    &&& cur.b <= remaining * BIN
}

/// Micro-steps during which channel `i` is lit from this state to the end of the frame.
pub open spec fn lit_steps(cur: Rgb, remaining: int, i: int) -> int
    decreases remaining,
{
    let steps = interval_steps(cur, remaining);
    if remaining <= 0 || steps < 1 || steps > remaining {
        0
    } else {
        (if channel(cur, i) > 0 {
            steps
        } else {
            0
        }) + lit_steps(step_color(cur), remaining - steps, i)
    }
}

/// Micro-steps taken by all steps from this state to the end of the frame.
pub open spec fn frame_steps(cur: Rgb, remaining: int) -> int
    decreases remaining,
{
    let steps = interval_steps(cur, remaining);
    if remaining <= 0 || steps < 1 || steps > remaining {
        0
    } else {
        steps + frame_steps(step_color(cur), remaining - steps)
    }
}

proof fn lemma_quantized(x: int)
    requires
        0 <= x <= UNIT,
    ensures
        quantized(x) % (BIN as int) == 0,
        0 <= quantized(x) <= UNIT,
        -(BIN as int) <= 2 * (quantized(x) - x) <= BIN,
{
}

proof fn lemma_frame_color(target: Hsv)
    requires
        target.in_range(),
    ensures
        frame_wf(frame_color(target), STEPS_PER_FRAME as int),
        rgb_of(target).in_range(),
{
    lemma_channels_in_range(target.h as int, target.s as int, target.v as int);
    let c = rgb_of(target);
    lemma_quantized(c.r as int);
    lemma_quantized(c.g as int);
    lemma_quantized(c.b as int);
}

proof fn lemma_bin_steps(k: int)
    requires
        0 <= k,
    ensures
        level_steps(k * BIN) == k,
{
    assert(k * BIN * STEPS_PER_FRAME == k * (UNIT as int)) by (nonlinear_arith);
    assert(k * (UNIT as int) / (UNIT as int) == k) by (nonlinear_arith);
}

/// One step from a well-formed state with micro-steps left: the interval is between one
/// micro-step and the rest of the frame, and the next state is well formed.
proof fn lemma_step(cur: Rgb, remaining: int)
    requires
        frame_wf(cur, remaining),
        remaining > 0,
    ensures
        1 <= interval_steps(cur, remaining) <= remaining,
        frame_wf(step_color(cur), step_remaining(cur, remaining)),
        min_nonzero(cur) == 0 ==> interval_steps(cur, remaining) == remaining,
        min_nonzero(cur) > 0 ==> interval_steps(cur, remaining) * BIN == min_nonzero(cur),
        min_nonzero(cur) == 0 ==> cur.r == 0 && cur.g == 0 && cur.b == 0,
        forall|i: int| 0 <= i < 3 && channel(cur, i) > 0 ==> channel(cur, i) >= min_nonzero(cur) > 0,
{
    let m = min_nonzero(cur);
    if m > 0 {
        assert(m % (BIN as int) == 0);
        let k = m / (BIN as int);
        assert(m == k * BIN);
        lemma_bin_steps(k);
        assert(k * BIN <= remaining * BIN);
        assert(k <= remaining) by (nonlinear_arith)
            requires
                k * BIN <= remaining * BIN,
        ;
        let n = remaining - k;
        let next = step_color(cur);
        assert(n * BIN == remaining * BIN - k * BIN);
        assert(next.r <= n * BIN);
        assert(next.g <= n * BIN);
        assert(next.b <= n * BIN);
    }
}

/// Over the rest of a frame, each channel is lit for exactly as many micro-steps as it has
/// brightness bins left, and the steps taken add up to the micro-steps left in the frame.
pub proof fn lemma_lit_steps_match_levels(cur: Rgb, remaining: int, i: int)
    requires
        frame_wf(cur, remaining),
        0 <= i < 3,
    ensures
        lit_steps(cur, remaining, i) * BIN == channel(cur, i),
        frame_steps(cur, remaining) == remaining,
    decreases remaining,
{
    if remaining > 0 {
        lemma_step(cur, remaining);
        let steps = interval_steps(cur, remaining);
        lemma_lit_steps_match_levels(step_color(cur), remaining - steps, i);
        assert(steps * BIN == min_nonzero(cur) || channel(cur, i) == 0);
    }
}

/// Duty cycle of a whole frame: from a frame boundary to the next, each channel is lit for
/// as many micro-steps as its brightness bins in the frame's colour, which differs from the
/// exact conversion of the target by at most half a bin; the frame lasts `STEPS_PER_FRAME`.
pub proof fn lemma_frame_duty_cycle(target: Hsv, i: int)
    requires
        target.in_range(),
        0 <= i < 3,
    ensures
        lit_steps(frame_color(target), STEPS_PER_FRAME as int, i) * BIN == channel(
            frame_color(target),
            i,
        ),
        -(BIN as int) <= 2 * (lit_steps(frame_color(target), STEPS_PER_FRAME as int, i) * BIN
            - channel(rgb_of(target), i)) <= BIN,
        frame_steps(frame_color(target), STEPS_PER_FRAME as int) == STEPS_PER_FRAME,
{
    lemma_frame_color(target);
    lemma_lit_steps_match_levels(frame_color(target), STEPS_PER_FRAME as int, i);
    let c = rgb_of(target);
    lemma_quantized(c.r as int);
    lemma_quantized(c.g as int);
    lemma_quantized(c.b as int);
}

/// Hue of the starting colour: 330 degrees (magenta).
pub const STARTING_HUE: u32 = 55_000;

/// Saturation of the starting colour: 0.75.
pub const STARTING_SAT: u32 = 45_000;

/// Value of the starting colour: 0.8.
pub const STARTING_VALUE: u32 = 48_000;

/// The designated starting target colour, a magenta.
pub fn starting_hsv() -> (r: Hsv)
    ensures
        r == (Hsv { h: STARTING_HUE, s: STARTING_SAT, v: STARTING_VALUE }),
        r.in_range(),
{
    Hsv { h: STARTING_HUE, s: STARTING_SAT, v: STARTING_VALUE }
}

/// The PWM renderer: the target HSV colour, the colour being rendered in the current frame,
/// and the micro-steps left in that frame.
pub struct ColorControler {
    base_color: Hsv,
    cur_color: Rgb,
    remaining_frames: u32,
}

impl ColorControler {
    /// The target colour.
    pub closed spec fn target_color(self) -> Hsv {
        self.base_color
    }

    /// The colour left to render in the current frame.
    pub closed spec fn rendering_color(self) -> Rgb {
        self.cur_color
    }

    /// Micro-steps left in the current frame; zero at a frame boundary.
    pub closed spec fn frame_remaining(self) -> int {
        self.remaining_frames as int
    }

    /// The target is clamped and the frame state is well formed.
    pub open spec fn wf(self) -> bool {
        &&& self.target_color().in_range()
        &&& frame_wf(self.rendering_color(), self.frame_remaining())
    }

    /// A renderer for `color`, clamped into range. It starts at a frame boundary, so its first
    /// step loads the target colour.
    pub fn new(color: Hsv) -> (r: Self)
        ensures
            r.wf(),
            r.target_color() == (Hsv {
                h: clamp_unit(color.h as int) as u32,
                s: clamp_unit(color.s as int) as u32,
                v: clamp_unit(color.v as int) as u32,
            }),
            r.rendering_color() == (Rgb { r: 0, g: 0, b: 0 }),
            r.frame_remaining() == 0,
    {
        let mut color = color;
        ColorControler::clamp(&mut color);
        ColorControler {
            base_color: color,
            cur_color: Rgb { r: 0, g: 0, b: 0 },
            remaining_frames: 0,
        }
    }

    fn _clamp(value: u32) -> (r: u32)
        ensures
            r == clamp_unit(value as int),
    {
        if value > UNIT {
            UNIT
        } else {
            value
        }
    }

    /// Snaps a channel to the nearest of `BRIGHTNESS_STEPS` bins; a tie goes down.
    fn round(number: u32) -> (r: u32)
        requires
            number <= UNIT,
        ensures
            r == quantized(number as int),
    {
        let integer = number / BIN;
        let remainder = number % BIN;
        if remainder * 2 > BIN {
            (integer + 1) * BIN
        } else {
            integer * BIN
        }
    }

    /// The smallest non-zero channel, or 0 when all three are zero.
    fn find_min_nonzero(rgb: &Rgb) -> (r: u32)
        ensures
            r == min_nonzero(*rgb),
    {
        let mut min: u32 = 0;
        if rgb.r > 0 {
            min = rgb.r;
        }
        if rgb.g > 0 && (min == 0 || rgb.g < min) {
            min = rgb.g;
        }
        if rgb.b > 0 && (min == 0 || rgb.b < min) {
            min = rgb.b;
        }
        min
    }

    fn sub_level(level: u32, value: u32) -> (r: u32)
        ensures
            r == drained_level(level as int, value as int),
    {
        if level > value {
            level - value
        } else {
            0
        }
    }

    /// Takes `value` off every channel of the rendering colour, clamped at zero.
    fn subtract_rgb(&mut self, value: u32)
        ensures
            final(self).cur_color == drained(old(self).cur_color, value as int),
            final(self).base_color == old(self).base_color,
            final(self).remaining_frames == old(self).remaining_frames,
    {
        self.cur_color.r = ColorControler::sub_level(self.cur_color.r, value);
        self.cur_color.g = ColorControler::sub_level(self.cur_color.g, value);
        self.cur_color.b = ColorControler::sub_level(self.cur_color.b, value);
    }

    /// Clamps each component of `hsv` into [0, UNIT].
    pub fn clamp(hsv: &mut Hsv)
        ensures
            final(hsv).h == clamp_unit(old(hsv).h as int),
            final(hsv).s == clamp_unit(old(hsv).s as int),
            final(hsv).v == clamp_unit(old(hsv).v as int),
            final(hsv).in_range(),
    {
        hsv.h = ColorControler::_clamp(hsv.h);
        hsv.s = ColorControler::_clamp(hsv.s);
        hsv.v = ColorControler::_clamp(hsv.v);
    }

    /// Sets the target hue, clamped into [0, UNIT].
    pub fn update_hue(&mut self, hue: u32)
        requires
            old(self).wf(),
        ensures
            final(self).wf(),
            final(self).target_color() == (Hsv {
                h: clamp_unit(hue as int) as u32,
                ..old(self).target_color()
            }),
            final(self).rendering_color() == old(self).rendering_color(),
            final(self).frame_remaining() == old(self).frame_remaining(),
    {
        self.base_color.h = ColorControler::_clamp(hue);
    }

    /// Sets the target saturation, clamped into [0, UNIT].
    pub fn update_sat(&mut self, sat: u32)
        requires
            old(self).wf(),
        ensures
            final(self).wf(),
            final(self).target_color() == (Hsv {
                s: clamp_unit(sat as int) as u32,
                ..old(self).target_color()
            }),
            final(self).rendering_color() == old(self).rendering_color(),
            final(self).frame_remaining() == old(self).frame_remaining(),
    {
        self.base_color.s = ColorControler::_clamp(sat);
    }

    /// Sets the target value, clamped into [0, UNIT].
    pub fn update_value(&mut self, value: u32)
        requires
            old(self).wf(),
        ensures
            final(self).wf(),
            final(self).target_color() == (Hsv {
                v: clamp_unit(value as int) as u32,
                ..old(self).target_color()
            }),
            final(self).rendering_color() == old(self).rendering_color(),
            final(self).frame_remaining() == old(self).frame_remaining(),
    {
        self.base_color.v = ColorControler::_clamp(value);
    }

    /// The target colour.
    pub fn target(&self) -> (r: Hsv)
        ensures
            r == self.target_color(),
    {
        self.base_color
    }

    /// The colour left to render in the current frame.
    pub fn rendering(&self) -> (r: Rgb)
        ensures
            r == self.rendering_color(),
    {
        self.cur_color
    }

    /// Micro-steps left in the current frame.
    pub fn remaining(&self) -> (r: u32)
        ensures
            r == self.frame_remaining(),
    {
        self.remaining_frames
    }

    /// One render step. At a frame boundary the rendering colour is reloaded from the target
    /// and a new frame begins. A channel is lit when it has brightness left; the pattern is held
    /// for as long as the dimmest lit channel lasts (the rest of the frame when none is lit),
    /// and that brightness is taken off every channel. The returned tick count is never zero.
    pub fn render(&mut self) -> (step: RenderStep)
        requires
            old(self).wf(),
        ensures
            final(self).wf(),
            step == step_output(
                loaded_color(
                    old(self).target_color(),
                    old(self).rendering_color(),
                    old(self).frame_remaining(),
                ),
                loaded_remaining(old(self).frame_remaining()),
            ),
            final(self).target_color() == old(self).target_color(),
            final(self).rendering_color() == step_color(
                loaded_color(
                    old(self).target_color(),
                    old(self).rendering_color(),
                    old(self).frame_remaining(),
                ),
            ),
            final(self).frame_remaining() == step_remaining(
                loaded_color(
                    old(self).target_color(),
                    old(self).rendering_color(),
                    old(self).frame_remaining(),
                ),
                loaded_remaining(old(self).frame_remaining()),
            ),
            step.ticks >= 1,
    {
        if self.remaining_frames == 0 {
            proof {
                lemma_frame_color(self.base_color);
            }
            let rgb = self.base_color.to_rgb();
            self.cur_color = Rgb {
                r: ColorControler::round(rgb.r),
                g: ColorControler::round(rgb.g),
                b: ColorControler::round(rgb.b),
            };
            self.remaining_frames = STEPS_PER_FRAME;
        }
        let rgb = self.cur_color;
        proof {
            lemma_step(rgb, self.remaining_frames as int);
        }
        let min_val = ColorControler::find_min_nonzero(&rgb);
        let red_on = rgb.r > 0;
        let green_on = rgb.g > 0;
        let blue_on = rgb.b > 0;

        // whole micro-steps, rounded down: rounding up would overrun the frame
        let mut steps: u32 = ((min_val as u64) * (STEPS_PER_FRAME as u64) / (UNIT as u64)) as u32;
        if steps == 0 {
            steps = self.remaining_frames;
        }
        let duration_us = steps * DURATION_PER_STEP_US;
        let clock_cycles = TICKS_PER_US * duration_us;

        self.remaining_frames = self.remaining_frames - steps;
        self.subtract_rgb(min_val);

        let ticks = if clock_cycles == 0 {
            MIN_TICKS
        } else {
            clock_cycles
        };
        RenderStep { red_on, green_on, blue_on, ticks }
    }
}

} // verus!
