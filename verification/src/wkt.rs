//! Well-known text: what the engine's parser is asked, and what is made of the
//! parser's result and of the writer's buffer.
use crate::error::{LWGeomError, LWGeomErrorView};
use crate::lwgeom::{LWGeom, SRID_UNKNOWN};
use crate::parser_result::LWGeomParserResult;
use crate::text::{before_terminator, c_string, first_nul_at, lossy_text, nul_free, text_of_buffer};
use vstd::prelude::*;
use vstd::string::StringSliceAdditionalSpecFns;
use vstd::utf8::{decode_utf8, valid_utf8};

verus! {

/// The parser's checks: minimum point counts, even ordinate counts and ring
/// closure, all of them.
pub const LW_PARSER_CHECK_ALL: i32 = 7;

/// The writer's variant for plain well-known text in the ISO form.
pub const WKT_ISO: u8 = 1;

/// The writer's variant for extended well-known text.
pub const WKT_EXTENDED: u8 = 4;

/// The number of significant digits that is written where none is asked for.
pub const DEFAULT_PRECISION: i32 = 15;

/// A parse of well-known text that waits for the engine: the text to hand over,
/// and what to do with the geometry that comes back.
#[derive(Debug, PartialEq, Eq)]
pub struct WktParse {
    text: Vec<u8>,
    srid: Option<i32>,
    extended: bool,
}

/// A serialisation to well-known text that waits for the engine.
#[derive(Clone, Copy, Debug, PartialEq, Eq)]
pub struct WktWrite {
    /// The variant to ask the writer for.
    pub variant: u8,
    /// The number of significant digits to ask the writer for.
    pub precision: i32,
}

impl WktParse {
    /// The bytes to hand to the parser: the text and a terminating zero.
    pub closed spec fn c_text(&self) -> Seq<u8> {
        self.text@
    }

    /// The identifier to tag the geometry with, where the caller named one.
    pub closed spec fn srid(&self) -> Option<i32> {
        self.srid
    }

    /// Whether the text may carry an identifier of its own.
    pub closed spec fn extended(&self) -> bool {
        self.extended
    }

    /// The identifier of the geometry that a parse gives, where it gives one:
    /// that of the parsed geometry, unless the caller named another.
    pub open spec fn srid_after(&self, parsed: LWGeom) -> i32 {
        match self.srid() {
            Some(srid) => srid,
            None => parsed.srid(),
        }
    }

    /// The parsed geometry breaks the promise of plain text: it carries an
    /// identifier that only extended text can hold.
    pub open spec fn is_mixed(&self, parsed: LWGeom) -> bool {
        !self.extended() && parsed.srid() != SRID_UNKNOWN
    }

    /// The bytes to hand to the parser: the text and a terminating zero.
    pub fn as_c_text(&self) -> (text: &Vec<u8>)
        ensures
            text@ == self.c_text(),
    {
        &self.text
    }

    /// The checks to ask the parser for.
    pub fn check_flags(&self) -> (flags: i32)
        ensures
            flags == LW_PARSER_CHECK_ALL,
    {
        LW_PARSER_CHECK_ALL
    }

    /// What the parse gives, once the engine has answered with `result`.
    ///
    /// A failed parse gives the parser's message, or names the parser where it
    /// left none. Plain text that turns out to carry an identifier is refused.
    /// Otherwise the parsed geometry is returned, tagged with the identifier
    /// that the caller named, if any.
    pub fn finish(self, result: LWGeomParserResult) -> (r: Result<LWGeom, LWGeomError>)
        requires
            result.wf(),
        ensures
            match r {
                Ok(geom) => {
                    &&& !result.is_failure()
                    &&& result.geom() matches Some(parsed)
                    &&& !self.is_mixed(parsed)
                    &&& geom.srid() == self.srid_after(parsed)
                    &&& geom.bbox() == parsed.bbox()
                },
                Err(e) => if result.is_failure() {
                    match result.message_text() {
                        Some(message) => e@ == LWGeomErrorView::WKTParseError(message),
                        None => e@ == LWGeomErrorView::FailedWithoutMessageError(
                            "lwgeom_parse_wkt"@,
                        ),
                    }
                } else {
                    &&& result.geom() matches Some(parsed)
                    &&& self.is_mixed(parsed)
                    &&& e@ == LWGeomErrorView::MixedFormatError
                },
            },
    {
        let mut result = result;
        if result.failed() {
            return match result.message() {
                Some(message) => Err(LWGeomError::WKTParseError(message)),
                None => Err(LWGeomError::failed_without_message("lwgeom_parse_wkt")),
            };
        }
        let mut geom = result.take_geom();
        if !self.extended && geom.has_srid() {
            return Err(LWGeomError::MixedFormatError);
        }
        if let Some(srid) = self.srid {
            geom.set_srid(srid);
        }
        Ok(geom)
    }
}

impl WktWrite {
    /// What the serialisation gives, once the engine has answered with
    /// `buffer`: the text before the buffer's terminator. No buffer is an error.
    pub fn finish(&self, buffer: Option<Vec<u8>>) -> (r: Result<String, LWGeomError>)
        ensures
            match r {
                Ok(text) => {
                    &&& buffer matches Some(bytes)
                    &&& text@ == lossy_text(before_terminator(bytes@))
                    &&& valid_utf8(before_terminator(bytes@)) ==> text@ == decode_utf8(
                        before_terminator(bytes@),
                    )
                },
                Err(e) => buffer is None && e@ == LWGeomErrorView::NullPtrError,
            },
    {
        match buffer {
            Some(bytes) => Ok(text_of_buffer(&bytes)),
            None => Err(LWGeomError::NullPtrError),
        }
    }
}

impl LWGeom {
    /// Prepares the parse of plain well-known text, to be tagged with `srid` if
    /// one is given. Text that holds a zero byte is refused.
    pub fn from_text(wkt: &str, srid: Option<i32>) -> (r: Result<WktParse, LWGeomError>)
        ensures
            match r {
                Ok(parse) => {
                    &&& nul_free(wkt.spec_bytes())
                    &&& parse.c_text() == wkt.spec_bytes().push(0)
                    &&& parse.srid() == srid
                    &&& !parse.extended()
                },
                Err(e) => e matches LWGeomError::NulError(position) && first_nul_at(
                    wkt.spec_bytes(),
                    position as int,
                ),
            },
    {
        match c_string(wkt) {
            Ok(text) => Ok(WktParse { text, srid, extended: false }),
            Err(e) => Err(e),
        }
    }

    /// Prepares the parse of extended well-known text, which may name its own
    /// identifier. Text that holds a zero byte is refused.
    pub fn from_ewkt(wkt: &str) -> (r: Result<WktParse, LWGeomError>)
        ensures
            match r {
                Ok(parse) => {
                    &&& nul_free(wkt.spec_bytes())
                    &&& parse.c_text() == wkt.spec_bytes().push(0)
                    &&& parse.srid() is None
                    &&& parse.extended()
                },
                Err(e) => e matches LWGeomError::NulError(position) && first_nul_at(
                    wkt.spec_bytes(),
                    position as int,
                ),
            },
    {
        match c_string(wkt) {
            Ok(text) => Ok(WktParse { text, srid: None, extended: true }),
            Err(e) => Err(e),
        }
    }

    /// Prepares the serialisation to plain well-known text, with `precision`
    /// significant digits or [`DEFAULT_PRECISION`].
    pub fn as_text(&self, precision: Option<i32>) -> (w: WktWrite)
        ensures
            w.variant == WKT_ISO,
            w.precision == match precision {
                Some(p) => p,
                None => DEFAULT_PRECISION,
            },
    {
        WktWrite {
            variant: WKT_ISO,
            precision: match precision {
                Some(p) => p,
                None => DEFAULT_PRECISION,
            },
        }
    }

    /// Prepares the serialisation to extended well-known text, with `precision`
    /// significant digits or [`DEFAULT_PRECISION`].
    pub fn as_ewkt(&self, precision: Option<i32>) -> (w: WktWrite)
        ensures
            w.variant == WKT_EXTENDED,
            w.precision == match precision {
                Some(p) => p,
                None => DEFAULT_PRECISION,
            },
    {
        WktWrite {
            variant: WKT_EXTENDED,
            precision: match precision {
                Some(p) => p,
                None => DEFAULT_PRECISION,
            },
        }
    }
}

} // verus!
