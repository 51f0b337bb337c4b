//! HSV to RGB conversion in fixed point.
use vstd::prelude::*;

verus! {

/// The fixed-point representation of 1.0: a normalised scalar `x` in [0, 1] is held as `x * UNIT`.
/// It is divisible by 6 (hue sectors) and by 100 (brightness bins).
pub const UNIT: u32 = 60_000;

/// HSV coordinates in units of `1 / UNIT`.
#[derive(Clone, Copy, Debug, PartialEq, Eq, Structural)]
pub struct Hsv {
    /// Hue, a cyclic angle in [0, UNIT).
    pub h: u32,
    /// Saturation in [0, UNIT].
    pub s: u32,
    /// Value in [0, UNIT].
    pub v: u32,
}

/// RGB coordinates in units of `1 / UNIT`.
#[derive(Clone, Copy, Debug, PartialEq, Eq, Structural)]
pub struct Rgb {
    /// Red in [0, UNIT].
    pub r: u32,
    /// Green in [0, UNIT].
    pub g: u32,
    /// Blue in [0, UNIT].
    pub b: u32,
}

impl Hsv {
    /// All three components lie in [0, UNIT].
    pub open spec fn in_range(self) -> bool {
        self.h <= UNIT && self.s <= UNIT && self.v <= UNIT
    }
}

impl Rgb {
    /// All three channels lie in [0, UNIT].
    pub open spec fn in_range(self) -> bool {
        self.r <= UNIT && self.g <= UNIT && self.b <= UNIT
    }
}

/// Chroma `c = s * v`, rounded down to the fixed-point grid.
pub open spec fn chroma(s: int, v: int) -> int {
    s * v / (UNIT as int)
}

/// Which of the six 60-degree sectors the hue falls in: `floor(h * 6)`.
pub open spec fn hue_sector(h: int) -> int {
    h * 6 / (UNIT as int)
}

/// Position of the hue within its sector, in units of `1 / UNIT` of a sector.
pub open spec fn sector_offset(h: int) -> int {
    h * 6 % (UNIT as int)
}

/// The secondary component `x`: `c * frac` in even sectors, `c * (1 - frac)` in odd ones.
pub open spec fn secondary(h: int, c: int) -> int {
    if hue_sector(h) % 2 == 0 {
        c * sector_offset(h) / (UNIT as int)
    } else {
        c * (UNIT - sector_offset(h)) / (UNIT as int)
    }
}

/// The (r, g, b) triple of the standard hexagonal HSV decomposition.
/// A sector of 6 or more (only reachable from a hue of UNIT or above) takes the sector-5 mapping.
pub open spec fn hsv_channels(h: int, s: int, v: int) -> (int, int, int) {
    let c = chroma(s, v);
    let x = secondary(h, c);
    let m = v - c;
    let sector = hue_sector(h);
    if sector == 0 {
        (c + m, x + m, m)
    } else if sector == 1 {
        (x + m, c + m, m)
    } else if sector == 2 {
        (m, c + m, x + m)
    } else if sector == 3 {
        (m, x + m, c + m)
    } else if sector == 4 {
        (x + m, m, c + m)
    } else {
        (c + m, m, x + m)
    }
}

/// The RGB colour of an HSV colour.
pub open spec fn rgb_of(c: Hsv) -> Rgb {
    let (r, g, b) = hsv_channels(c.h as int, c.s as int, c.v as int);
    Rgb { r: r as u32, g: g as u32, b: b as u32 }
}

proof fn lemma_chroma_bounds(s: int, v: int)
    requires
        0 <= s <= UNIT,
        0 <= v,
    ensures
        0 <= chroma(s, v) <= v,
{
    assert(0 <= s * v <= UNIT * v) by (nonlinear_arith)
        requires
            0 <= s <= UNIT,
            0 <= v,
    ;
    assert(s * v / (UNIT as int) <= v) by (nonlinear_arith)
        requires
            0 <= s * v <= UNIT * v,
    ;
}

proof fn lemma_secondary_bounds(h: int, c: int)
    requires
        0 <= h,
        0 <= c,
    ensures
        0 <= secondary(h, c) <= c,
{
    let f = sector_offset(h);
    assert(0 <= f < UNIT);
    assert(0 <= c * f <= c * UNIT) by (nonlinear_arith)
        requires
            0 <= f < UNIT,
            0 <= c,
    ;
    assert(0 <= c * (UNIT - f) <= c * UNIT) by (nonlinear_arith)
        requires
            0 <= f < UNIT,
            0 <= c,
    ;
    assert(c * f / (UNIT as int) <= c) by (nonlinear_arith)
        requires
            0 <= c * f <= c * UNIT,
    ;
    assert(c * (UNIT - f) / (UNIT as int) <= c) by (nonlinear_arith)
        requires
            0 <= c * (UNIT - f) <= c * UNIT,
    ;
}

/// Every channel of a converted colour lies between 0 and the value `v`, so between 0 and
/// UNIT when the saturation and value do: the conversion never overshoots.
pub proof fn lemma_channels_in_range(h: int, s: int, v: int)
    requires
        0 <= h,
        0 <= s <= UNIT,
        0 <= v <= UNIT,
    ensures
        0 <= hsv_channels(h, s, v).0 <= v,
        0 <= hsv_channels(h, s, v).1 <= v,
        0 <= hsv_channels(h, s, v).2 <= v,
{
    lemma_chroma_bounds(s, v);
    lemma_secondary_bounds(h, chroma(s, v));
}

/// A colour without saturation is grey: all three channels equal the value.
pub proof fn lemma_desaturated_is_grey(h: int, v: int)
    requires
        0 <= h,
        0 <= v,
    ensures
        hsv_channels(h, 0, v) == (v, v, v),
{
    assert(chroma(0, v) == 0);
    assert(secondary(h, 0) == 0);
}

impl Hsv {
    /// Converts to RGB. Saturation and value must already be clamped into [0, UNIT];
    /// the hue is not clamped here.
    pub fn to_rgb(self) -> (r: Rgb)
        requires
            self.s <= UNIT,
            self.v <= UNIT,
        ensures
            r == rgb_of(self),
            r.r <= self.v,
            r.g <= self.v,
            r.b <= self.v,
            r.in_range(),
    {
        proof {
            lemma_channels_in_range(self.h as int, self.s as int, self.v as int);
            lemma_chroma_bounds(self.s as int, self.v as int);
            lemma_secondary_bounds(self.h as int, chroma(self.s as int, self.v as int));
        }
        let unit = UNIT as u64;
        let c: u64 = (self.s as u64) * (self.v as u64) / unit;
        let h6: u64 = (self.h as u64) * 6;
        let sector: u64 = h6 / unit;
        let frac: u64 = h6 % unit;
        assert(c * frac <= c * unit) by (nonlinear_arith)
            requires
                frac < unit,
        ;
        assert(c * (unit - frac) <= c * unit) by (nonlinear_arith)
            requires
                frac < unit,
        ;
        assert(c * unit <= unit * unit) by (nonlinear_arith)
            requires
                c <= unit,
        ;
        let x: u64 = if sector % 2 == 0 {
            c * frac / unit
        } else {
            c * (unit - frac) / unit
        };
        let m: u64 = self.v as u64 - c;
        let (r1, g1, b1): (u64, u64, u64) = if sector == 0 {
            (c, x, 0)
        } else if sector == 1 {
            (x, c, 0)
        } else if sector == 2 {
            (0, c, x)
        } else if sector == 3 {
            (0, x, c)
        } else if sector == 4 {
            (x, 0, c)
        } else {
            (c, 0, x)
        };
        Rgb { r: (r1 + m) as u32, g: (g1 + m) as u32, b: (b1 + m) as u32 }
    }
}

} // verus!
