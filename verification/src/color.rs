//! Intensity-to-color mapping: a percentage in [0, 100] mapped linearly onto
//! a green-to-red gradient, used as the foreground color of the intensity
//! column.

use vstd::prelude::*;
use vstd::arithmetic::div_mod::lemma_div_is_ordered;

verus! {

/// A terminal foreground or background color as a red/green/blue triple.
#[derive(Clone, Copy, Debug, PartialEq, Eq, Structural)]
pub struct Rgb {
    pub r: u8,
    pub g: u8,
    pub b: u8,
}

/// A percentage clamped into [0, 100].
pub open spec fn spec_clamp_pct(pct: nat) -> nat {
    if pct > 100 {
        100
    } else {
        pct
    }
}

/// The gradient color of a percentage: red rises linearly from 0 to 255 and
/// green falls linearly from 255 to 0 (each channel rounded half-up), blue
/// stays 0.
pub open spec fn spec_intensity_color(pct: nat) -> Rgb {
    Rgb {
        r: ((spec_clamp_pct(pct) * 255 + 50) / 100) as u8,
        g: (((100 - spec_clamp_pct(pct)) * 255 + 50) / 100) as u8,
        b: 0,
    }
}

/// Map a percentage to an RGB gradient from green (0) to red (100); values
/// above 100 are clamped first.
pub fn intensity_color(pct: u32) -> (c: Rgb)
    ensures
        c == spec_intensity_color(pct as nat),
{
    let p: u32 = if pct > 100 {
        100
    } else {
        pct
    };
    assert(p * 255 + 50 <= 25550);
    assert((100 - p) * 255 + 50 <= 25550);
    assert((p * 255 + 50) / 100 <= 255) by {
        lemma_div_is_ordered((p * 255 + 50) as int, 25550, 100);
    }
    assert(((100 - p) * 255 + 50) / 100 <= 255) by {
        lemma_div_is_ordered(((100 - p) * 255 + 50) as int, 25550, 100);
    }
    Rgb { r: ((p * 255 + 50) / 100) as u8, g: (((100 - p) * 255 + 50) / 100) as u8, b: 0 }
}

/// The gradient is anchored and monotonic: 0 maps to pure green, 100 maps to
/// pure red, and a higher percentage never has a smaller red channel.
pub proof fn lemma_intensity_color_monotonic(p1: nat, p2: nat)
    requires
        p1 < p2,
        p2 <= 100,
    ensures
        spec_intensity_color(0) == (Rgb { r: 0, g: 255, b: 0 }),
        spec_intensity_color(100) == (Rgb { r: 255, g: 0, b: 0 }),
        spec_intensity_color(p1).r <= spec_intensity_color(p2).r,
{
    assert(p1 * 255 + 50 <= p2 * 255 + 50) by (nonlinear_arith)
        requires
            p1 < p2,
    ;
    lemma_div_is_ordered((p1 * 255 + 50) as int, (p2 * 255 + 50) as int, 100);
    lemma_div_is_ordered((p1 * 255 + 50) as int, 25550, 100);
    lemma_div_is_ordered((p2 * 255 + 50) as int, 25550, 100);
    assert(p1 * 255 + 50 <= 25550) by (nonlinear_arith)
        requires
            p1 < p2 <= 100,
    ;
    assert(p2 * 255 + 50 <= 25550) by (nonlinear_arith)
        requires
            p2 <= 100,
    ;
}

} // verus!
