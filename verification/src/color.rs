//! Colour samples and the integer parts of the per-pixel colour heuristics.

use vstd::prelude::*;

verus! {

/// One colour sample: red, green and blue intensity, each an 8-bit magnitude
/// in `0..=255`. There is no alpha channel.
#[derive(Clone, Copy, PartialEq, Eq, Structural, Debug)]
pub struct RGB {
    pub r: u8,
    pub g: u8,
    pub b: u8,
}

impl RGB {
    /// The largest of the three channels.
    pub open spec fn spec_max_channel(self) -> u8 {
        if self.r >= self.g && self.r >= self.b {
            self.r
        } else if self.g >= self.b {
            self.g
        } else {
            self.b
        }
    }

    /// The smallest of the three channels.
    pub open spec fn spec_min_channel(self) -> u8 {
        if self.r <= self.g && self.r <= self.b {
            self.r
        } else if self.g <= self.b {
            self.g
        } else {
            self.b
        }
    }

    /// A sample is achromatic (a gray) when all three channels are equal.
    pub open spec fn is_gray(self) -> bool {
        self.r == self.g && self.g == self.b
    }

    pub fn new(r: u8, g: u8, b: u8) -> (c: RGB)
        ensures
            c.r == r,
            c.g == g,
            c.b == b,
    {
        RGB { r, g, b }
    }

    /// The largest channel; the HSL `max` of the saturation heuristic, before
    /// the channels are normalised to `[0, 1]`.
    pub fn max_channel(&self) -> (m: u8)
        ensures
            m == self.spec_max_channel(),
    {
        if self.r >= self.g && self.r >= self.b {
            self.r
        } else if self.g >= self.b {
            self.g
        } else {
            self.b
        }
    }

    /// The smallest channel; the HSL `min` of the saturation heuristic, before
    /// the channels are normalised to `[0, 1]`.
    pub fn min_channel(&self) -> (m: u8)
        ensures
            m == self.spec_min_channel(),
    {
        if self.r <= self.g && self.r <= self.b {
            self.r
        } else if self.g <= self.b {
            self.g
        } else {
            self.b
        }
    }

    /// The squared Euclidean magnitude of the sample, `r² + g² + b²`; the
    /// radicand of the normalisation step of the skin-tone heuristic. It is
    /// zero exactly for pure black, the sample whose normalisation degenerates.
    pub fn sum_squares(&self) -> (s: u32)
        ensures
            s == self.r * self.r + self.g * self.g + self.b * self.b,
            s == 0 <==> (self.r == 0 && self.g == 0 && self.b == 0),
    {
        let r: u32 = self.r as u32;
        let g: u32 = self.g as u32;
        let b: u32 = self.b as u32;
        proof {
            assert(r * r <= 65025 && g * g <= 65025 && b * b <= 65025 && (r * r == 0 <==> r == 0)
                && (g * g == 0 <==> g == 0) && (b * b == 0 <==> b == 0)) by (nonlinear_arith)
                requires
                    r <= 255,
                    g <= 255,
                    b <= 255,
            ;
        }
        r * r + g * g + b * b
    }
}

/// The saturation heuristic takes its achromatic branch exactly on grays:
/// the largest and smallest channel coincide if and only if all three
/// channels are equal.
pub proof fn lemma_achromatic_iff_gray(c: RGB)
    ensures
        c.spec_max_channel() == c.spec_min_channel() <==> c.is_gray(),
{
}

} // verus!
