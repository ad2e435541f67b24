//! The error taxonomy shared by every fallible operation of the library.

use vstd::prelude::*;

verus! {

/// Why an operation on a document failed.
#[derive(Debug)]
pub enum PdfError {
    /// Text could not be formatted for output. The library itself never
    /// fails so; the variant is for the output side.
    Format(String),
    /// An output device could not write. The library itself never fails so;
    /// the variant is for the output side.
    Io(String),
    /// An object that the document refers to could not be found or read.
    Parse(String),
    /// A value was well formed but of the wrong type, arity or range.
    InvalidStructure(String),
    /// A font could not be built.
    FontError(String),
    /// A byte string could not be decoded.
    EncodingError(String),
    /// A required dictionary key is absent; the payload is the key.
    MissingField(Vec<u8>),
}

/// The result of a fallible operation of the library.
pub type PdfResult<T> = Result<T, PdfError>;

/// What an error says, without its message: the form in which contracts name
/// the error that an input leads to.
pub enum Failure {
    Format,
    Io,
    Parse,
    InvalidStructure,
    FontError,
    EncodingError,
    MissingField(Seq<u8>),
}

impl PdfError {
    /// An `InvalidStructure` error carrying `msg`.
    pub fn invalid(msg: &str) -> (e: PdfError)
        ensures
            e matches PdfError::InvalidStructure(m) && m@ == msg@,
    {
        PdfError::InvalidStructure(msg.to_owned())
    }

    /// An `EncodingError` carrying `msg`.
    pub fn encoding(msg: &str) -> (e: PdfError)
        ensures
            e matches PdfError::EncodingError(m) && m@ == msg@,
    {
        PdfError::EncodingError(msg.to_owned())
    }

    /// A `Parse` error carrying `msg`.
    pub fn parse(msg: &str) -> (e: PdfError)
        ensures
            e matches PdfError::Parse(m) && m@ == msg@,
    {
        PdfError::Parse(msg.to_owned())
    }

    /// A `MissingField` error naming `key`.
    pub fn missing(key: &[u8]) -> (e: PdfError)
        ensures
            e matches PdfError::MissingField(k) && k@ == key@,
    {
        PdfError::MissingField(vstd::slice::slice_to_vec(key))
    }

    /// The error without its message.
    pub open spec fn kind(self) -> Failure {
        match self {
            PdfError::Format(_) => Failure::Format,
            PdfError::Io(_) => Failure::Io,
            PdfError::Parse(_) => Failure::Parse,
            PdfError::InvalidStructure(_) => Failure::InvalidStructure,
            PdfError::FontError(_) => Failure::FontError,
            PdfError::EncodingError(_) => Failure::EncodingError,
            PdfError::MissingField(k) => Failure::MissingField(k@),
        }
    }
}

/// Whether an executable result is the one a contract names: the same value on
/// success, the same kind of error on failure.
pub open spec fn agrees<T>(r: PdfResult<T>, want: Result<T, Failure>) -> bool {
    match r {
        Ok(v) => want == Ok::<T, Failure>(v),
        Err(e) => want == Err::<T, Failure>(e.kind()),
    }
}

} // verus!
