use vstd::prelude::*;

verus! {

/// A construction-time validation failure.
///
/// Every fallible constructor in this crate reports bad external input
/// through one of these variants instead of panicking.
#[derive(Clone, Copy, Debug, PartialEq, Eq, Structural, Hash)]
pub enum ValidationError {
    /// The text is not a well-formed UUID.
    InvalidIdentifier,
    /// The bytes are non-empty but are not a decodable JPEG image.
    InvalidImage,
    /// The text is not well-formed base64.
    InvalidEncoding,
    /// The text names no known attribute type.
    UnknownAttributeType,
}

/// A failure to decode an opaque encoded value into the requested type.
#[derive(Clone, Copy, Debug, PartialEq, Eq, Structural, Hash)]
pub enum CodecError {
    /// The bytes do not decode as the requested target type.
    TypeMismatch,
}

} // verus!
