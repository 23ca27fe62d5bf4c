//! The errors of the library.
use vstd::prelude::*;

verus! {

/// Why an operation on a geometry failed.
#[derive(Debug, Clone, PartialEq, Eq)]
pub enum LWGeomError {
    /// The text cannot be handed to the engine as a zero-terminated string: it
    /// holds a zero byte, the first one at this position.
    NulError(usize),
    /// The engine's parser refused the text, with this message.
    WKTParseError(String),
    /// The named engine operation failed and left no message.
    FailedWithoutMessageError(String),
    /// The engine returned no geometry or no buffer where one was owed.
    NullPtrError,
    /// The named operation refused the named parameter.
    InvalidParameterError(String, String),
    /// Plain well-known text was asked for, and the text carried a spatial
    /// reference identifier of its own.
    MixedFormatError,
}

/// An error as a mathematical value: each string by its characters.
pub ghost enum LWGeomErrorView {
    NulError(usize),
    WKTParseError(Seq<char>),
    FailedWithoutMessageError(Seq<char>),
    NullPtrError,
    InvalidParameterError(Seq<char>, Seq<char>),
    MixedFormatError,
}

impl View for LWGeomError {
    type V = LWGeomErrorView;

    open spec fn view(&self) -> LWGeomErrorView {
        match *self {
            LWGeomError::NulError(position) => LWGeomErrorView::NulError(position),
            LWGeomError::WKTParseError(message) => LWGeomErrorView::WKTParseError(message@),
            LWGeomError::FailedWithoutMessageError(operation) =>
                LWGeomErrorView::FailedWithoutMessageError(operation@),
            LWGeomError::NullPtrError => LWGeomErrorView::NullPtrError,
            LWGeomError::InvalidParameterError(operation, parameter) =>
                LWGeomErrorView::InvalidParameterError(operation@, parameter@),
            LWGeomError::MixedFormatError => LWGeomErrorView::MixedFormatError,
        }
    }
}

impl LWGeomError {
    /// The error of an operation that refuses one of its parameters.
    pub fn invalid_parameter(operation: &str, parameter: &str) -> (e: LWGeomError)
        ensures
            e@ == LWGeomErrorView::InvalidParameterError(operation@, parameter@),
    {
        LWGeomError::InvalidParameterError(operation.to_owned(), parameter.to_owned())
    }

    /// The error of an engine operation that failed without a message.
    pub fn failed_without_message(operation: &str) -> (e: LWGeomError)
        ensures
            e@ == LWGeomErrorView::FailedWithoutMessageError(operation@),
    {
        LWGeomError::FailedWithoutMessageError(operation.to_owned())
    }
}

} // verus!
