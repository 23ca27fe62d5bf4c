//! Bounding boxes.
use crate::binary64::{lemma_magnitude_order, Binary64};
use vstd::prelude::*;

verus! {

/// The pattern of 20037508.342789, half the width of the Web-Mercator world.
pub const WEB_MERCATOR_MAX_BITS: u64 = 0x4173_1bf8_457c_1052;

/// The pattern of -20037508.342789.
pub const WEB_MERCATOR_MIN_BITS: u64 = 0xc173_1bf8_457c_1052;

/// An axis-aligned rectangle that bounds a geometry.
///
/// A well-formed box has `xmin <= xmax` and `ymin <= ymax`. Nothing here
/// enforces that: whoever consumes a box checks it.
#[derive(Clone, Copy, Debug, PartialEq, Eq)]
pub struct GBox {
    pub xmin: Binary64,
    pub ymin: Binary64,
    pub xmax: Binary64,
    pub ymax: Binary64,
}

impl GBox {
    /// The box with the given bounds.
    pub fn new(xmin: Binary64, ymin: Binary64, xmax: Binary64, ymax: Binary64) -> (b: GBox)
        ensures
            b == (GBox { xmin, ymin, xmax, ymax }),
    {
        GBox { xmin, ymin, xmax, ymax }
    }

    /// The extent of the Web-Mercator world: from -20037508.342789 to
    /// 20037508.342789 on both axes.
    pub open spec fn web_mercator_extent() -> GBox {
        GBox {
            xmin: Binary64 { bits: WEB_MERCATOR_MIN_BITS },
            ymin: Binary64 { bits: WEB_MERCATOR_MIN_BITS },
            xmax: Binary64 { bits: WEB_MERCATOR_MAX_BITS },
            ymax: Binary64 { bits: WEB_MERCATOR_MAX_BITS },
        }
    }

    /// The extent of the Web-Mercator world.
    pub fn web_mercator() -> (b: GBox)
        ensures
            b == GBox::web_mercator_extent(),
    {
        GBox {
            xmin: Binary64 { bits: WEB_MERCATOR_MIN_BITS },
            ymin: Binary64 { bits: WEB_MERCATOR_MIN_BITS },
            xmax: Binary64 { bits: WEB_MERCATOR_MAX_BITS },
            ymax: Binary64 { bits: WEB_MERCATOR_MAX_BITS },
        }
    }

    pub fn xmin(&self) -> (v: Binary64)
        ensures
            v == self.xmin,
    {
        self.xmin
    }

    pub fn ymin(&self) -> (v: Binary64)
        ensures
            v == self.ymin,
    {
        self.ymin
    }

    pub fn xmax(&self) -> (v: Binary64)
        ensures
            v == self.xmax,
    {
        self.xmax
    }

    pub fn ymax(&self) -> (v: Binary64)
        ensures
            v == self.ymax,
    {
        self.ymax
    }

    /// Whether the box is as wide and as high as a tile grid needs: both
    /// `xmax - xmin` and `ymax - ymin` are above zero, or not a number.
    pub open spec fn has_extent(self) -> bool {
        !self.xmax.difference_is_le_zero(self.xmin) && !self.ymax.difference_is_le_zero(self.ymin)
    }

    /// Computes [`GBox::has_extent`].
    pub fn extent_is_positive(&self) -> (r: bool)
        ensures
            r == self.has_extent(),
    {
        !self.xmax.difference_le_zero(&self.xmin) && !self.ymax.difference_le_zero(&self.ymin)
    }
}

/// The Web-Mercator world is wider and higher than zero.
pub proof fn lemma_web_mercator_has_extent()
    ensures
        GBox::web_mercator_extent().has_extent(),
{
    lemma_magnitude_order(0, WEB_MERCATOR_MAX_BITS as int);
}

} // verus!
