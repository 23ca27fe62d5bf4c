//! Geometries: the owned handle and the borrowed reference.
//!
//! A geometry is known here by what the library's rules read of it: its spatial
//! reference identifier and its bounding box. Its shape stays with the engine.
use crate::gbox::GBox;
use vstd::prelude::*;

verus! {

/// The spatial reference identifier of a geometry that has none.
pub const SRID_UNKNOWN: i32 = 0;

/// A geometry that something else owns: a part of a larger geometry, or the node
/// behind an [`LWGeom`]. It is reached by reference only, so it cannot outlive
/// its owner, and it is never released on its own.
#[derive(Debug, PartialEq, Eq)]
pub struct LWGeomRef {
    srid: i32,
    bbox: Option<GBox>,
}

impl LWGeomRef {
    /// The spatial reference identifier, [`SRID_UNKNOWN`] where there is none.
    pub closed spec fn srid(&self) -> i32 {
        self.srid
    }

    /// The bounding box; an empty geometry has none.
    pub closed spec fn bbox(&self) -> Option<GBox> {
        self.bbox
    }

    /// The identifier as callers see it: none where it is [`SRID_UNKNOWN`].
    pub open spec fn known_srid(&self) -> Option<i32> {
        if self.srid() != SRID_UNKNOWN {
            Some(self.srid())
        } else {
            None
        }
    }

    /// Whether the geometry names a spatial reference system.
    pub fn has_srid(&self) -> (r: bool)
        ensures
            r == (self.srid() != SRID_UNKNOWN),
    {
        self.srid != SRID_UNKNOWN
    }

    /// The spatial reference identifier, if the geometry has one.
    pub fn get_srid(&self) -> (r: Option<i32>)
        ensures
            r == self.known_srid(),
    {
        if self.has_srid() {
            Some(self.srid)
        } else {
            None
        }
    }

    /// Tags the geometry with `srid`. Any value is taken; [`SRID_UNKNOWN`]
    /// removes the tag.
    pub fn set_srid(&mut self, srid: i32)
        ensures
            final(self).srid() == srid,
            final(self).bbox() == old(self).bbox(),
    {
        self.srid = srid;
    }

    /// Whether the geometry has a bounding box.
    pub fn has_bbox(&self) -> (r: bool)
        ensures
            r == (self.bbox() is Some),
    {
        self.bbox.is_some()
    }

    /// The bounding box of a geometry that has one.
    pub fn get_bbox_ref(&self) -> (bbox: &GBox)
        requires
            self.bbox() is Some,
        ensures
            self.bbox() == Some(*bbox),
    {
        self.bbox.as_ref().unwrap()
    }
}

/// A geometry that its holder owns.
#[derive(Debug, PartialEq, Eq)]
pub struct LWGeom {
    node: LWGeomRef,
}

impl LWGeom {
    /// The spatial reference identifier, [`SRID_UNKNOWN`] where there is none.
    pub closed spec fn srid(&self) -> i32 {
        self.node.srid
    }

    /// The bounding box; an empty geometry has none.
    pub closed spec fn bbox(&self) -> Option<GBox> {
        self.node.bbox
    }

    /// The identifier as callers see it: none where it is [`SRID_UNKNOWN`].
    pub open spec fn known_srid(&self) -> Option<i32> {
        if self.srid() != SRID_UNKNOWN {
            Some(self.srid())
        } else {
            None
        }
    }

    /// A geometry with the given identifier and bounding box.
    pub fn new(srid: i32, bbox: Option<GBox>) -> (geom: LWGeom)
        ensures
            geom.srid() == srid,
            geom.bbox() == bbox,
    {
        LWGeom { node: LWGeomRef { srid, bbox } }
    }

    /// Lends the geometry for reading.
    pub fn as_geom_ref(&self) -> (node: &LWGeomRef)
        ensures
            node.srid() == self.srid(),
            node.bbox() == self.bbox(),
    {
        &self.node
    }

    /// Lends the geometry for writing: what is done to the reference is done to
    /// the geometry.
    pub fn as_geom_mut(&mut self) -> (node: &mut LWGeomRef)
        ensures
            node.srid() == old(self).srid(),
            node.bbox() == old(self).bbox(),
            final(self).srid() == final(node).srid(),
            final(self).bbox() == final(node).bbox(),
    {
        &mut self.node
    }

    /// Whether the geometry names a spatial reference system.
    pub fn has_srid(&self) -> (r: bool)
        ensures
            r == (self.srid() != SRID_UNKNOWN),
    {
        self.node.has_srid()
    }

    /// The spatial reference identifier, if the geometry has one.
    pub fn get_srid(&self) -> (r: Option<i32>)
        ensures
            r == self.known_srid(),
    {
        self.node.get_srid()
    }

    /// Tags the geometry with `srid`. Any value is taken; [`SRID_UNKNOWN`]
    /// removes the tag.
    pub fn set_srid(&mut self, srid: i32)
        ensures
            final(self).srid() == srid,
            final(self).bbox() == old(self).bbox(),
    {
        self.node.set_srid(srid);
    }

    /// Whether the geometry has a bounding box.
    pub fn has_bbox(&self) -> (r: bool)
        ensures
            r == (self.bbox() is Some),
    {
        self.node.has_bbox()
    }

    /// The bounding box of a geometry that has one.
    pub fn get_bbox_ref(&self) -> (bbox: &GBox)
        requires
            self.bbox() is Some,
        ensures
            self.bbox() == Some(*bbox),
    {
        self.node.get_bbox_ref()
    }
}

} // verus!
