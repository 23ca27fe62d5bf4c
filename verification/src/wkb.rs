//! Extended well-known binary: what the engine is asked, and what is made of its
//! answer.
use crate::error::{LWGeomError, LWGeomErrorView};
use crate::lwgeom::LWGeom;
use crate::wkt::LW_PARSER_CHECK_ALL;
use vstd::prelude::*;

verus! {

/// The writer's variant for extended well-known binary.
pub const WKB_EXTENDED: u8 = 4;

/// The bytes that the length header of an engine buffer takes.
pub const VARLENA_HEADER_LEN: u32 = 4;

/// A parse of well-known binary that waits for the engine.
#[derive(Clone, Copy, Debug, PartialEq, Eq)]
pub struct WkbParse<'a> {
    /// The bytes to hand to the parser, all of them: binary may hold zero bytes.
    pub bytes: &'a [u8],
    /// The checks to ask the parser for.
    pub check_flags: i32,
}

/// A serialisation to well-known binary that waits for the engine.
#[derive(Clone, Copy, Debug, PartialEq, Eq)]
pub struct WkbWrite {
    /// The variant to ask the writer for.
    pub variant: u8,
}

impl<'a> WkbParse<'a> {
    /// What the parse gives, once the engine has answered with `parsed`: the
    /// geometry, or an error where the engine built none.
    pub fn finish(&self, parsed: Option<LWGeom>) -> (r: Result<LWGeom, LWGeomError>)
        ensures
            match r {
                Ok(geom) => parsed == Some(geom),
                Err(e) => parsed is None && e@ == LWGeomErrorView::NullPtrError,
            },
    {
        match parsed {
            Some(geom) => Ok(geom),
            None => Err(LWGeomError::NullPtrError),
        }
    }
}

impl WkbWrite {
    /// The number of payload bytes in a buffer that declares `declared` bytes,
    /// its length header counted in. A buffer that declares less than its
    /// header holds no payload.
    pub fn payload_len(&self, declared: u32) -> (len: u32)
        ensures
            len == if declared >= VARLENA_HEADER_LEN {
                declared - VARLENA_HEADER_LEN
            } else {
                0
            },
    {
        if declared >= VARLENA_HEADER_LEN {
            declared - VARLENA_HEADER_LEN
        } else {
            0
        }
    }

    /// What the serialisation gives, once the engine has answered with
    /// `buffer`: the bytes of the buffer, as many as it declares. No buffer is
    /// an error.
    pub fn finish(&self, buffer: Option<Vec<u8>>) -> (r: Result<Vec<u8>, LWGeomError>)
        ensures
            match r {
                Ok(bytes) => buffer == Some(bytes),
                Err(e) => buffer is None && e@ == LWGeomErrorView::NullPtrError,
            },
    {
        match buffer {
            Some(bytes) => Ok(bytes),
            None => Err(LWGeomError::NullPtrError),
        }
    }
}

impl LWGeom {
    /// Prepares the parse of extended well-known binary.
    pub fn from_ewkb<'a>(ewkb: &'a [u8]) -> (parse: WkbParse<'a>)
        ensures
            parse.bytes@ == ewkb@,
            parse.check_flags == LW_PARSER_CHECK_ALL,
    {
        WkbParse { bytes: ewkb, check_flags: LW_PARSER_CHECK_ALL }
    }

    /// Prepares the serialisation to extended well-known binary.
    pub fn as_ewkb(&self) -> (w: WkbWrite)
        ensures
            w.variant == WKB_EXTENDED,
    {
        WkbWrite { variant: WKB_EXTENDED }
    }
}

} // verus!
