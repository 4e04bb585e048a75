//! Candidate crop rectangles and their geometry.

use vstd::prelude::*;

verus! {

/// A candidate rectangular sub-region of an image: top-left corner `(x, y)`
/// and extent `width × height`, all in pixels. The spatial importance weight
/// is well defined only when both extents are positive.
#[derive(Clone, PartialEq, Eq, Structural, Debug)]
pub struct Crop {
    pub x: u32,
    pub y: u32,
    pub width: u32,
    pub height: u32,
}

impl Crop {
    /// Both extents are positive, so the rectangle has pixels in it.
    pub open spec fn well_formed(self) -> bool {
        self.width > 0 && self.height > 0
    }

    /// Pixel `(x, y)` lies in the half-open rectangle
    /// `[self.x, self.x + self.width) × [self.y, self.y + self.height)`.
    pub open spec fn spec_contains(self, x: int, y: int) -> bool {
        self.x <= x && x < self.x + self.width && self.y <= y && y < self.y + self.height
    }

    /// The membership test behind the importance weight: a pixel inside the
    /// rectangle gets the spatial formula, one outside gets the fixed penalty.
    pub fn contains(&self, x: u32, y: u32) -> (r: bool)
        ensures
            r == self.spec_contains(x as int, y as int),
    {
        let right: u64 = self.x as u64 + self.width as u64;
        let bottom: u64 = self.y as u64 + self.height as u64;
        self.x <= x && (x as u64) < right && self.y <= y && (y as u64) < bottom
    }

    /// The pixel's offset from the crop's top-left corner: the numerators of
    /// the normalised position that the importance weight computes for a
    /// pixel inside the crop.
    pub fn offset_within(&self, x: u32, y: u32) -> (o: (u32, u32))
        requires
            self.spec_contains(x as int, y as int),
        ensures
            o.0 == x - self.x,
            o.1 == y - self.y,
            o.0 < self.width,
            o.1 < self.height,
    {
        (x - self.x, y - self.y)
    }
}

/// A crop contains some pixel if and only if it is well formed: a zero
/// extent leaves the half-open rectangle empty, so every pixel is outside
/// such a crop and the importance weight never reaches its interior formula.
pub proof fn lemma_nonempty_iff_well_formed(c: Crop)
    ensures
        (exists|x: int, y: int| c.spec_contains(x, y)) <==> c.well_formed(),
{
    if c.well_formed() {
        assert(c.spec_contains(c.x as int, c.y as int));
    }
}

/// A pixel is strictly outside a crop exactly when it fails one of the four
/// bounds — it lies left of, right of, above, or below the rectangle. The
/// importance weight returns its fixed outside penalty on exactly these
/// pixels.
pub proof fn lemma_outside_characterization(c: Crop, x: int, y: int)
    ensures
        !c.spec_contains(x, y) <==> (x < c.x || x >= c.x + c.width || y < c.y || y >= c.y
            + c.height),
{
}

} // verus!
