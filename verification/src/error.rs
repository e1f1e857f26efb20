//! The error taxonomy of the library.

use vstd::prelude::*;

verus! {

/// Everything that can go wrong inside the core.
///
/// `MalformedValue` is a codec decode failure: it carries the offending text
/// and a description of the shape that was expected. `TransportFailure` is
/// reported by the transport collaborator when a request could not be
/// completed. `UnexpectedResponseShape` is a response envelope that does not
/// have the documented wrapping. `AddressResolutionFailure` is reserved:
/// identifier conversions are total today, but a future identifier kind may
/// fail to resolve.
#[derive(Debug, Clone, PartialEq, Eq)]
pub enum MispError {
    MalformedValue { text: String, expected: String },
    TransportFailure { detail: String },
    UnexpectedResponseShape,
    AddressResolutionFailure,
}

pub type MispResult<T> = Result<T, MispError>;

} // verus!
