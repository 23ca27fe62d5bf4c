//! Tile envelopes: the rectangle that one tile of a tile pyramid covers.
//!
//! Zoom level `z` cuts the bounds into `2^z` columns and as many rows; row 0 is
//! the top one. A margin widens the tile on every side by that share of a tile,
//! and a negative margin narrows it.
//!
//! The library checks the request and settles the corners. The coordinate
//! arithmetic between the two is the caller's: it hands over the edges that it
//! computed, as [`TileEdges`].
use crate::binary64::Binary64;
use crate::error::{LWGeomError, LWGeomErrorView};
use crate::gbox::{lemma_web_mercator_has_extent, GBox};
use crate::lwgeom::{LWGeom, SRID_UNKNOWN};
use crate::lwpoly::{envelope_ring, LWPoly};
use vstd::arithmetic::power2::*;
use vstd::bits::lemma_u32_shl_is_mul;
use vstd::prelude::*;

verus! {

/// The spatial reference identifier of Web Mercator, for tiles whose bounds
/// name none.
pub const WEB_MERCATOR_SRID: i32 = 3857;

/// The zoom levels are those below this one.
pub const ZOOM_LEVELS: i32 = 32;

/// The bounds that the tiles divide: the bounding box of `bounds`, or the
/// Web-Mercator world where none are given.
pub open spec fn tile_bounds(bounds: Option<&LWGeom>) -> GBox {
    match bounds {
        Some(geom) => geom.bbox().unwrap(),
        None => GBox::web_mercator_extent(),
    }
}

/// The identifier that the envelope is tagged with: that of `bounds`, or
/// [`WEB_MERCATOR_SRID`] where there are no bounds or they name none.
pub open spec fn tile_srid(bounds: Option<&LWGeom>) -> i32 {
    match bounds {
        Some(geom) => if geom.srid() != SRID_UNKNOWN {
            geom.srid()
        } else {
            WEB_MERCATOR_SRID
        },
        None => WEB_MERCATOR_SRID,
    }
}

/// The margin, zero where none is given.
pub open spec fn tile_margin(margin: Option<Binary64>) -> Binary64 {
    match margin {
        Some(m) => m,
        None => Binary64 { bits: 0 },
    }
}

/// The margin is below -1/2: it would turn the tile inside out.
pub open spec fn margin_inverts(margin: Binary64) -> bool {
    !margin.is_nan() && margin.scaled() < -pow2(1073)
}

/// `span` is above `2^zoom`, the number of tiles in a row.
pub open spec fn exceeds_world(span: Binary64, zoom: nat) -> bool {
    !span.is_nan() && pow2(1074 + zoom) < span.scaled()
}

/// The parameter that a tile request is refused for: the first of margin,
/// bounds, zoom, x and y that is out of order, or none.
pub open spec fn refused_parameter(zoom: i32, x: i32, y: i32, bounds: GBox, margin: Binary64) -> Option<
    Seq<char>,
> {
    if margin_inverts(margin) {
        Some("margin"@)
    } else if !bounds.has_extent() {
        Some("bounds"@)
    } else if !(0 <= zoom < ZOOM_LEVELS) {
        Some("zoom"@)
    } else if !(0 <= x < pow2(zoom as nat)) {
        Some("x"@)
    } else if !(0 <= y < pow2(zoom as nat)) {
        Some("y"@)
    } else {
        None
    }
}

/// A tile request as a mathematical value.
pub ghost struct TileView {
    pub zoom: nat,
    pub x: nat,
    pub y: nat,
    pub margin: Binary64,
    pub bounds: GBox,
    pub srid: i32,
}

/// A tile request that passed the checks: its column and row lie in the grid of
/// its zoom level, its bounds have an extent and its margin does not invert it.
#[derive(Debug, PartialEq, Eq)]
pub struct Tile {
    zoom: u32,
    x: u32,
    y: u32,
    margin: Binary64,
    bounds: GBox,
    srid: i32,
}

/// The edges of a tile before they are clamped, as the caller computed them in
/// binary64 arithmetic from a [`Tile`]. With `w` the tile's `world_tile_size`,
/// `m` its margin and `sx = (xmax - xmin) / w`, `sy = (ymax - ymin) / w` the
/// size of a tile:
#[derive(Clone, Copy, Debug, PartialEq, Eq)]
pub struct TileEdges {
    /// `1 + 2 * m`, the width of the widened tile in tiles.
    pub margin_span: Binary64,
    /// `xmin + sx * (x - m)`
    pub x1: Binary64,
    /// `xmin + sx * (x + 1 + m)`
    pub x2: Binary64,
    /// `ymax - sy * (y + 1 + m)`
    pub y1: Binary64,
    /// `ymax - sy * (y - m)`
    pub y2: Binary64,
}

/// The corners `(x1, y1, x2, y2)` of the envelope. A tile that its margin makes
/// wider than the whole grid spans the bounds from `xmin` to `xmax`. The lower
/// edge does not go below `ymin`, nor the upper edge above `ymax`.
pub open spec fn envelope_corners(tile: TileView, edges: TileEdges) -> (
    Binary64,
    Binary64,
    Binary64,
    Binary64,
) {
    let whole = exceeds_world(edges.margin_span, tile.zoom);
    (
        if whole {
            tile.bounds.xmin
        } else {
            edges.x1
        },
        if edges.y1.is_lt(tile.bounds.ymin) {
            tile.bounds.ymin
        } else {
            edges.y1
        },
        if whole {
            tile.bounds.xmax
        } else {
            edges.x2
        },
        if tile.bounds.ymax.is_lt(edges.y2) {
            tile.bounds.ymax
        } else {
            edges.y2
        },
    )
}

impl View for Tile {
    type V = TileView;

    closed spec fn view(&self) -> TileView {
        TileView {
            zoom: self.zoom as nat,
            x: self.x as nat,
            y: self.y as nat,
            margin: self.margin,
            bounds: self.bounds,
            srid: self.srid,
        }
    }
}

impl Tile {
    #[verifier::type_invariant]
    spec fn in_grid(self) -> bool {
        &&& self.zoom < ZOOM_LEVELS
        &&& self.x < pow2(self.zoom as nat)
        &&& self.y < pow2(self.zoom as nat)
    }

    /// The zoom level.
    pub fn zoom(&self) -> (zoom: u32)
        ensures
            zoom == self@.zoom,
            zoom < ZOOM_LEVELS,
    {
        proof {
            use_type_invariant(self);
        }
        self.zoom
    }

    /// The number of tiles in a row and in a column: `2^zoom`.
    pub fn world_tile_size(&self) -> (size: u32)
        ensures
            size == pow2(self@.zoom),
    {
        proof {
            use_type_invariant(self);
        }
        tiles_per_axis(self.zoom)
    }

    /// The column of the tile, counted from the left.
    pub fn x(&self) -> (x: u32)
        ensures
            x == self@.x,
            x < pow2(self@.zoom),
    {
        proof {
            use_type_invariant(self);
        }
        self.x
    }

    /// The row of the tile, counted from the top.
    pub fn y(&self) -> (y: u32)
        ensures
            y == self@.y,
            y < pow2(self@.zoom),
    {
        proof {
            use_type_invariant(self);
        }
        self.y
    }

    /// The margin, as a share of a tile.
    pub fn margin(&self) -> (margin: Binary64)
        ensures
            margin == self@.margin,
    {
        self.margin
    }

    /// The bounds that the tiles divide.
    pub fn bounds(&self) -> (bounds: GBox)
        ensures
            bounds == self@.bounds,
    {
        self.bounds
    }

    /// The identifier that the envelope is tagged with.
    pub fn srid(&self) -> (srid: i32)
        ensures
            srid == self@.srid,
    {
        self.srid
    }

    /// The envelope of the tile, from the edges that the caller computed: a
    /// polygon of one closed ring round the corners that [`envelope_corners`]
    /// settles.
    pub fn finish(&self, edges: TileEdges) -> (poly: LWPoly)
        ensures
            poly.srid() == self@.srid,
            poly.rings() == seq![
                envelope_ring(
                    envelope_corners(self@, edges).0,
                    envelope_corners(self@, edges).1,
                    envelope_corners(self@, edges).2,
                    envelope_corners(self@, edges).3,
                ),
            ],
    {
        proof {
            use_type_invariant(self);
        }
        let world = Binary64::power_of_two(self.zoom);
        let whole = edges.margin_span.gt(&world);
        let x1 = if whole {
            self.bounds.xmin
        } else {
            edges.x1
        };
        let x2 = if whole {
            self.bounds.xmax
        } else {
            edges.x2
        };
        let y1 = if edges.y1.lt(&self.bounds.ymin) {
            self.bounds.ymin
        } else {
            edges.y1
        };
        let y2 = if edges.y2.gt(&self.bounds.ymax) {
            self.bounds.ymax
        } else {
            edges.y2
        };
        LWPoly::construct_envelope(self.srid, x1, y1, x2, y2)
    }
}

/// `2^zoom`, the number of tiles in a row at a zoom level.
pub fn tiles_per_axis(zoom: u32) -> (size: u32)
    requires
        zoom < ZOOM_LEVELS,
    ensures
        size == pow2(zoom as nat),
{
    proof {
        lemma2_to64();
        if zoom < 31 {
            lemma_pow2_strictly_increases(zoom as nat, 31);
        }
        lemma_u32_shl_is_mul(1, zoom);
    }
    1u32 << zoom
}

impl LWGeom {
    /// Checks the request for the envelope of tile `(x, y)` at `zoom`, in the
    /// grid that divides `bounds` (the Web-Mercator world where none are given),
    /// widened by `margin` (zero where none is given).
    ///
    /// The checks run in the order margin, bounds, zoom, x, y, and the error
    /// names the first parameter that fails:
    /// the margin is below -1/2; the bounds are not wider or not higher than
    /// zero; the zoom is not in `0..32`; `x` or `y` is not in `0..2^zoom`.
    pub fn tile_envelope(
        zoom: i32,
        x: i32,
        y: i32,
        bounds: Option<&LWGeom>,
        margin: Option<Binary64>,
    ) -> (r: Result<Tile, LWGeomError>)
        requires
            bounds matches Some(geom) ==> geom.bbox() is Some,
        ensures
            match r {
                Ok(tile) => {
                    &&& refused_parameter(zoom, x, y, tile_bounds(bounds), tile_margin(margin))
                        is None
                    &&& tile@ == (TileView {
                        zoom: zoom as nat,
                        x: x as nat,
                        y: y as nat,
                        margin: tile_margin(margin),
                        bounds: tile_bounds(bounds),
                        srid: tile_srid(bounds),
                    })
                },
                Err(e) => {
                    &&& refused_parameter(zoom, x, y, tile_bounds(bounds), tile_margin(margin))
                        matches Some(parameter)
                    &&& e@ == LWGeomErrorView::InvalidParameterError(
                        "ST_TileEnvelope"@,
                        parameter,
                    )
                },
            },
    {
        let (bbox, srid): (GBox, i32) = match bounds {
            Some(geom) => (
                *geom.get_bbox_ref(),
                match geom.get_srid() {
                    Some(srid) => srid,
                    None => WEB_MERCATOR_SRID,
                },
            ),
            None => (GBox::web_mercator(), WEB_MERCATOR_SRID),
        };
        let margin: Binary64 = match margin {
            Some(m) => m,
            None => Binary64::zero(),
        };
        if margin.lt(&Binary64::neg_half()) {
            return Err(LWGeomError::invalid_parameter("ST_TileEnvelope", "margin"));
        }
        if !bbox.extent_is_positive() {
            return Err(LWGeomError::invalid_parameter("ST_TileEnvelope", "bounds"));
        }
        if zoom < 0 || zoom >= ZOOM_LEVELS {
            return Err(LWGeomError::invalid_parameter("ST_TileEnvelope", "zoom"));
        }
        let world: u32 = tiles_per_axis(zoom as u32);
        if x < 0 || x as u32 >= world {
            return Err(LWGeomError::invalid_parameter("ST_TileEnvelope", "x"));
        }
        if y < 0 || y as u32 >= world {
            return Err(LWGeomError::invalid_parameter("ST_TileEnvelope", "y"));
        }
        Ok(Tile { zoom: zoom as u32, x: x as u32, y: y as u32, margin, bounds: bbox, srid })
    }
}

/// A request without bounds and without margin is refused for its zoom, its
/// column or its row only: the Web-Mercator world has an extent, and a margin
/// of zero inverts no tile.
pub proof fn lemma_default_request(zoom: i32, x: i32, y: i32)
    ensures
        refused_parameter(zoom, x, y, tile_bounds(None), tile_margin(None)) == if !(0 <= zoom
            < ZOOM_LEVELS) {
            Some("zoom"@)
        } else if !(0 <= x < pow2(zoom as nat)) {
            Some("x"@)
        } else if !(0 <= y < pow2(zoom as nat)) {
            Some("y"@)
        } else {
            None
        },
{
    lemma_web_mercator_has_extent();
    lemma_pow2_pos(1073);
}

} // verus!
