//! The closed set of failures that a call can end in.

use rustc_serialize::json::ErrorCode;
use vstd::prelude::*;

verus! {

/// `rustc_serialize::json::ErrorCode`, the parser crate's code for a syntax
/// error, carried as it is.
#[verifier::external_type_specification]
#[verifier::external_body]
pub struct ExErrorCode(ErrorCode);

/// Why a call failed.
///
/// Every failure is terminal for the call that produced it. The transport
/// variants (`Io`, `Ssl`, `Utf8`) carry the collaborator's own description
/// of what went wrong.
#[derive(Debug, PartialEq)]
#[allow(inconsistent_fields)]
pub enum Error {
    /// The transport or the response stream failed.
    Io(String),
    /// The secure connection could not be established or broke.
    Ssl(String),
    /// The transport met bytes that are not text where text was required.
    Utf8(String),
    /// The server answered with a status outside the success class.
    Http { code: u16, message: String },
    /// The service itself reported an error.
    Aur(String),
    /// The envelope or a record does not have the expected shape.
    InvalidResponse,
    /// The body is not a JSON document.
    Parse { code: ErrorCode, line: usize, col: usize },
}

/// The mathematical content of an [`Error`].
#[allow(inconsistent_fields)]
pub enum Failure {
    Io(Seq<char>),
    Ssl(Seq<char>),
    Utf8(Seq<char>),
    Http { code: u16, message: Seq<char> },
    Aur(Seq<char>),
    InvalidResponse,
    Parse { code: ErrorCode, line: usize, col: usize },
}

impl View for Error {
    type V = Failure;

    open spec fn view(&self) -> Failure {
        match self {
            Error::Io(m) => Failure::Io(m@),
            Error::Ssl(m) => Failure::Ssl(m@),
            Error::Utf8(m) => Failure::Utf8(m@),
            Error::Http { code, message } => Failure::Http { code: *code, message: message@ },
            Error::Aur(m) => Failure::Aur(m@),
            Error::InvalidResponse => Failure::InvalidResponse,
            Error::Parse { code, line, col } => Failure::Parse { code: *code, line: *line, col: *col },
        }
    }
}

} // verus!
