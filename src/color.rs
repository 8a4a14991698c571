//! The colour map: a hue, measured in fixed steps around the colour wheel,
//! becomes a fully saturated, fully bright, opaque RGBA colour with 8 bits
//! per channel.
//!
//! The wheel is cut into six sectors of `SECTOR_STEPS` steps each. In every
//! sector one channel is at full intensity (the chroma), one is zero and the
//! third follows a ramp that rises across even sectors and falls across odd
//! ones, so that neighbouring sectors meet without a jump.
use vstd::prelude::*;

verus! {

/// Steps in one sixth of the colour wheel (one 60 degree sector).
pub const SECTOR_STEPS: u32 = 255;

/// Steps in the whole wheel; hue `HUE_STEPS` is the same colour as hue 0.
pub const HUE_STEPS: u32 = 1530;

/// An 8-bit RGBA colour.
#[derive(Clone, Copy, Debug, PartialEq, Eq, Structural)]
pub struct Rgba {
    pub r: u8,
    pub g: u8,
    pub b: u8,
    pub a: u8,
}

/// The hue that a requested hue is clamped to.
pub open spec fn clamped_hue(hue: int) -> int {
    if hue > HUE_STEPS as int {
        HUE_STEPS as int
    } else {
        hue
    }
}

/// The sector (0 to 5) that hue `h` (0 to `HUE_STEPS`) lies in; the end of
/// the wheel wraps round to the first sector.
pub open spec fn sector_of(h: int) -> int {
    (h / SECTOR_STEPS as int) % 6
}

/// The ramp channel at hue `h`: rising across even sectors, falling across
/// odd ones.
pub open spec fn ramp_of(h: int) -> int {
    let f = h % SECTOR_STEPS as int;
    if sector_of(h) % 2 == 0 {
        f
    } else {
        SECTOR_STEPS as int - f
    }
}

/// Red, green and blue at hue `h` (0 to `HUE_STEPS`).
pub open spec fn rgb_of(h: int) -> (int, int, int) {
    let c = 255int;
    let x = ramp_of(h);
    let s = sector_of(h);
    if s == 0 {
        (c, x, 0)
    } else if s == 1 {
        (x, c, 0)
    } else if s == 2 {
        (0, c, x)
    } else if s == 3 {
        (0, x, c)
    } else if s == 4 {
        (x, 0, c)
    } else {
        (c, 0, x)
    }
}

/// The colour that hue `hue` maps to, with hues past the end of the wheel
/// clamped to its end.
pub open spec fn color_of(hue: int) -> Rgba {
    let (r, g, b) = rgb_of(clamped_hue(hue));
    Rgba { r: r as u8, g: g as u8, b: b as u8, a: 255 }
}

proof fn lemma_rgb_in_range(h: int)
    requires
        0 <= h <= HUE_STEPS,
    ensures
        0 <= rgb_of(h).0 <= 255,
        0 <= rgb_of(h).1 <= 255,
        0 <= rgb_of(h).2 <= 255,
{
}

/// Maps `hue`, in steps of `1 / HUE_STEPS` of the colour wheel, to an
/// opaque colour. Hues past `HUE_STEPS` are clamped to it.
pub fn hue_color(hue: u32) -> (c: Rgba)
    ensures
        c == color_of(hue as int),
        c.r as int == rgb_of(clamped_hue(hue as int)).0,
        c.g as int == rgb_of(clamped_hue(hue as int)).1,
        c.b as int == rgb_of(clamped_hue(hue as int)).2,
        c.a == 255,
{
    let h: u32 = if hue > HUE_STEPS {
        HUE_STEPS
    } else {
        hue
    };
    proof {
        lemma_rgb_in_range(h as int);
    }
    let sector: u32 = (h / SECTOR_STEPS) % 6;
    let f: u32 = h % SECTOR_STEPS;
    let x: u8 = if sector % 2 == 0 {
        f as u8
    } else {
        (SECTOR_STEPS - f) as u8
    };
    let (r, g, b): (u8, u8, u8) = if sector == 0 {
        (255, x, 0)
    } else if sector == 1 {
        (x, 255, 0)
    } else if sector == 2 {
        (0, 255, x)
    } else if sector == 3 {
        (0, x, 255)
    } else if sector == 4 {
        (x, 0, 255)
    } else {
        (255, 0, x)
    };
    Rgba { r, g, b, a: 255 }
}

/// Distance between two channel values.
pub open spec fn step_between(a: int, b: int) -> int {
    if a >= b {
        a - b
    } else {
        b - a
    }
}

/// The colour map is continuous: one step of hue changes each channel by
/// at most one, across sector boundaries and across the wrap from the end
/// of the wheel back to its start alike.
pub proof fn lemma_color_continuous(h: int)
    requires
        0 <= h < HUE_STEPS,
    ensures
        step_between(rgb_of(h).0, rgb_of(h + 1).0) <= 1,
        step_between(rgb_of(h).1, rgb_of(h + 1).1) <= 1,
        step_between(rgb_of(h).2, rgb_of(h + 1).2) <= 1,
{
    let q = h / 255;
    let f = h % 255;
    assert(0 <= q < 6);
    if f < 254 {
        assert((h + 1) / 255 == q && (h + 1) % 255 == f + 1);
    } else {
        assert((h + 1) / 255 == q + 1 && (h + 1) % 255 == 0);
    }
}

} // verus!
