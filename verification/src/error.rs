//! The error taxonomy of the compiler. Every parse-phase failure aborts the
//! whole compilation; the variants carry what is needed to describe the
//! offending node, attribute or identity.

use vstd::prelude::*;

verus! {

/// A compilation error. `UnexpectedNode` reports a wrong or unrecognized tag,
/// `MissingAttribute` a required attribute that is absent, `UnknownPrimitive`
/// and `WrongPrefix` a type-name classification failure, `NotFound` an
/// identity lookup or removal miss, `InvalidOccurs` an occurrence constraint
/// with `min_occurs` greater than `max_occurs`, and `InvalidNumber` an
/// occurrence attribute that is not a decimal number. `EmptyPrefix` is the
/// hard failure for a schema document that declares no usable namespace
/// prefix. `Io` and `ExternalProcessFailed` are raised only by the
/// surrounding driver, never by the parsing core.
#[derive(Debug, Clone, PartialEq, Eq)]
pub enum Error {
    UnexpectedNode { expected: String, actual: String },
    MissingAttribute { attribute: String, node: String },
    UnknownPrimitive { name: String },
    WrongPrefix { expected: String, actual: String },
    EmptyPrefix,
    NotFound { name: String },
    InvalidOccurs { min_occurs: u64, max_occurs: u64 },
    InvalidNumber { value: String },
    Io { message: String },
    ExternalProcessFailed { output: String },
}

/// The mathematical shape of an [`Error`]: the same variants over character
/// sequences, so that contracts can state exactly which error a function
/// returns.
pub enum ErrorV {
    UnexpectedNode { expected: Seq<char>, actual: Seq<char> },
    MissingAttribute { attribute: Seq<char>, node: Seq<char> },
    UnknownPrimitive { name: Seq<char> },
    WrongPrefix { expected: Seq<char>, actual: Seq<char> },
    EmptyPrefix,
    NotFound { name: Seq<char> },
    InvalidOccurs { min_occurs: u64, max_occurs: u64 },
    InvalidNumber { value: Seq<char> },
    Io { message: Seq<char> },
    ExternalProcessFailed { output: Seq<char> },
}

impl View for Error {
    type V = ErrorV;

    open spec fn view(&self) -> ErrorV {
        match self {
            Error::UnexpectedNode { expected, actual } => ErrorV::UnexpectedNode {
                expected: expected@,
                actual: actual@,
            },
            Error::MissingAttribute { attribute, node } => ErrorV::MissingAttribute {
                attribute: attribute@,
                node: node@,
            },
            Error::UnknownPrimitive { name } => ErrorV::UnknownPrimitive { name: name@ },
            Error::WrongPrefix { expected, actual } => ErrorV::WrongPrefix {
                expected: expected@,
                actual: actual@,
            },
            Error::EmptyPrefix => ErrorV::EmptyPrefix,
            Error::NotFound { name } => ErrorV::NotFound { name: name@ },
            Error::InvalidOccurs { min_occurs, max_occurs } => ErrorV::InvalidOccurs {
                min_occurs: *min_occurs,
                max_occurs: *max_occurs,
            },
            Error::InvalidNumber { value } => ErrorV::InvalidNumber { value: value@ },
            Error::Io { message } => ErrorV::Io { message: message@ },
            Error::ExternalProcessFailed { output } => ErrorV::ExternalProcessFailed {
                output: output@,
            },
        }
    }
}

/// The view of a `Result` whose error side is an [`Error`]: the payload is
/// kept and the error is replaced by its mathematical shape.
pub open spec fn err_view<T>(r: Result<T, Error>) -> Result<T, ErrorV> {
    match r {
        Ok(v) => Ok(v),
        Err(e) => Err(e@),
    }
}

} // verus!
