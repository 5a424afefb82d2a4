//! A verified client core for the Tardis instrument-metadata HTTP API.
//!
//! The library covers the request/response logic of the client: building
//! request URLs (including the encoded instrument filter), classifying
//! non-success responses, decoding the wire-format instrument records, and
//! normalizing raw records into domain instruments. The network transport
//! itself is left to the caller, who hands the library the response status
//! and body as plain values.

pub mod classify;
pub mod client;
pub mod error;
pub mod filter;
pub mod json;
pub mod normalize;
pub mod records;
pub mod text;

pub use client::Exchange;
pub use client::TardisHttpClient;
pub use error::TardisError;
pub use filter::InstrumentFilter;
pub use normalize::NormalizedInstrument;
pub use records::RawInstrumentRecord;
