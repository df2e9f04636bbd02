use vstd::prelude::*;

verus! {

/// An entity-kind identifier string matched no registered kind.
#[derive(Clone, Debug, PartialEq)]
pub struct UnknownIdentifierError {
    /// The identifier that was looked up.
    pub identifier: String,
}

/// A single raw engine match could not be normalized into the value model.
#[derive(Clone, Copy, Debug, PartialEq, Eq, Structural)]
pub enum ConversionError {
    /// The raw fields' implied kind differs from the kind the engine declared.
    KindMismatch,
    /// A duration component was negative.
    NegativeDurationComponent,
    /// A time interval had neither bound populated.
    EmptyTimeInterval,
}

/// Serializing an illustrative result description failed.
///
/// The descriptions are fixed well-formed data, so this error is never
/// produced; it exists so that the result type states the possibility.
#[derive(Clone, Copy, Debug, PartialEq, Eq, Structural)]
pub struct EncodingError;

/// A whole extraction call failed.
#[derive(Clone, Debug, PartialEq)]
pub enum ExtractError {
    /// The external parsing engine failed to initialize or errored.
    Engine { message: String },
}

} // verus!
