//! What the engine's text parser hands back.
use crate::lwgeom::LWGeom;
use vstd::prelude::*;

verus! {

/// The status with which the engine's parser reports failure.
pub const LW_FAILURE: i32 = 0;

/// The status with which the engine's parser reports success.
pub const LW_SUCCESS: i32 = 1;

/// The result of one run of the engine's text parser: its status, the message
/// it left, and the geometry it built.
///
/// The geometry can be taken out once. After that the result holds none, so
/// that releasing the result does not release the geometry a second time.
#[derive(Debug, PartialEq, Eq)]
pub struct LWGeomParserResult {
    status: i32,
    message: Option<String>,
    geom: Option<LWGeom>,
}

impl LWGeomParserResult {
    /// The status that the parser returned.
    pub closed spec fn status(&self) -> i32 {
        self.status
    }

    /// The characters of the message, if the parser left one.
    pub closed spec fn message_text(&self) -> Option<Seq<char>> {
        match self.message {
            Some(m) => Some(m@),
            None => None,
        }
    }

    /// The geometry that the result still holds.
    pub closed spec fn geom(&self) -> Option<LWGeom> {
        self.geom
    }

    /// A parse counts as failed only where the status is [`LW_FAILURE`].
    pub open spec fn is_failure(&self) -> bool {
        self.status() == LW_FAILURE
    }

    /// A result as the parser leaves it: one that did not fail holds a geometry.
    pub open spec fn wf(&self) -> bool {
        !self.is_failure() ==> self.geom() is Some
    }

    /// The result with the given status, message and geometry.
    pub fn new(status: i32, message: Option<String>, geom: Option<LWGeom>) -> (r: LWGeomParserResult)
        ensures
            r.status() == status,
            r.message_text() == match message {
                Some(m) => Some(m@),
                None => None,
            },
            r.geom() == geom,
    {
        LWGeomParserResult { status, message, geom }
    }

    /// Whether the parse failed.
    pub fn failed(&self) -> (r: bool)
        ensures
            r == self.is_failure(),
    {
        self.status == LW_FAILURE
    }

    /// Whether the result still holds a geometry.
    pub fn has_geom(&self) -> (r: bool)
        ensures
            r == (self.geom() is Some),
    {
        self.geom.is_some()
    }

    /// A copy of the message, if the parser left one.
    pub fn message(&self) -> (r: Option<String>)
        ensures
            match r {
                Some(m) => self.message_text() == Some(m@),
                None => self.message_text() is None,
            },
    {
        match &self.message {
            Some(m) => Some(m.clone()),
            None => None,
        }
    }

    /// Moves the geometry out of the result, which holds none afterwards.
    pub fn take_geom(&mut self) -> (geom: LWGeom)
        requires
            old(self).geom() is Some,
        ensures
            old(self).geom() == Some(geom),
            final(self).geom() is None,
            final(self).status() == old(self).status(),
            final(self).message_text() == old(self).message_text(),
    {
        self.geom.take().unwrap()
    }
}

} // verus!
