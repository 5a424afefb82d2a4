//! Error values returned by the client core.

use vstd::prelude::*;

verus! {

/// The failures a client call can surface.
///
/// `ApiError` is a classified non-success HTTP response; `ResponseParse`
/// is a success response whose body did not decode as expected;
/// `Transport` is a network, connection or timeout failure reported by the
/// transport before a response was obtained; `MissingApiKey` is the fatal
/// construction-time configuration error raised when no credential is
/// available.
#[derive(Debug, Clone)]
pub enum TardisError {
    ApiError { status: u16, code: u64, message: String },
    ResponseParse(String),
    Transport(String),
    MissingApiKey,
}

impl TardisError {
    /// True when the error is the construction-time configuration failure.
    pub fn is_missing_api_key(&self) -> (r: bool)
        ensures
            r == (self is MissingApiKey),
    {
        match self {
            TardisError::MissingApiKey => true,
            _ => false,
        }
    }
}

} // verus!
