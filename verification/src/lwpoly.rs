//! Polygons, as far as the library builds them: the envelope of a rectangle.
use crate::binary64::Binary64;
use vstd::prelude::*;

verus! {

/// A vertex.
#[derive(Clone, Copy, Debug, PartialEq, Eq)]
pub struct Point2d {
    pub x: Binary64,
    pub y: Binary64,
}

/// The closed ring round the rectangle with corners `(x1, y1)` and `(x2, y2)`:
/// four corners, the first one again at the end.
pub open spec fn envelope_ring(x1: Binary64, y1: Binary64, x2: Binary64, y2: Binary64) -> Seq<
    Point2d,
> {
    seq![
        Point2d { x: x1, y: y1 },
        Point2d { x: x1, y: y2 },
        Point2d { x: x2, y: y2 },
        Point2d { x: x2, y: y1 },
        Point2d { x: x1, y: y1 },
    ]
}

/// A polygon: a spatial reference identifier and rings of vertices, the exterior
/// ring first.
#[derive(Debug, Clone, PartialEq, Eq)]
pub struct LWPoly {
    srid: i32,
    rings: Vec<Vec<Point2d>>,
}

impl LWPoly {
    /// The spatial reference identifier that the polygon is tagged with.
    pub closed spec fn srid(&self) -> i32 {
        self.srid
    }

    /// The rings of the polygon.
    pub closed spec fn rings(&self) -> Seq<Seq<Point2d>> {
        Seq::new(self.rings@.len(), |i: int| self.rings@[i]@)
    }

    /// The rectangle with corners `(x1, y1)` and `(x2, y2)` as a polygon of one
    /// ring, tagged with `srid`.
    pub fn construct_envelope(srid: i32, x1: Binary64, y1: Binary64, x2: Binary64, y2: Binary64) -> (poly: LWPoly)
        ensures
            poly.srid() == srid,
            poly.rings() == seq![envelope_ring(x1, y1, x2, y2)],
    {
        let mut ring: Vec<Point2d> = Vec::new();
        ring.push(Point2d { x: x1, y: y1 });
        ring.push(Point2d { x: x1, y: y2 });
        ring.push(Point2d { x: x2, y: y2 });
        ring.push(Point2d { x: x2, y: y1 });
        ring.push(Point2d { x: x1, y: y1 });
        assert(ring@ =~= envelope_ring(x1, y1, x2, y2));
        let mut rings: Vec<Vec<Point2d>> = Vec::new();
        rings.push(ring);
        let poly = LWPoly { srid, rings };
        assert(poly.rings() =~= seq![envelope_ring(x1, y1, x2, y2)]);
        poly
    }

    /// The spatial reference identifier that the polygon is tagged with.
    pub fn get_srid(&self) -> (srid: i32)
        ensures
            srid == self.srid(),
    {
        self.srid
    }

    /// The number of rings.
    pub fn num_rings(&self) -> (n: usize)
        ensures
            n == self.rings().len(),
    {
        self.rings.len()
    }

    /// The ring at `index`, the exterior ring at 0.
    pub fn ring(&self, index: usize) -> (ring: &Vec<Point2d>)
        requires
            index < self.rings().len(),
        ensures
            ring@ == self.rings()[index as int],
    {
        &self.rings[index]
    }
}

} // verus!
