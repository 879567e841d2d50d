//! A verified client core for a cursor-paginated, chunk-batched tabular
//! record service.
//!
//! The crate holds the logic of the client: assembling requests, walking
//! the pagination protocol, splitting bulk writes into service-sized
//! chunks with exact resume-after-failure accounting, and classifying
//! failed responses. The HTTP transport itself lives outside the crate;
//! the functions here consume the transport's replies as plain values.

pub mod client;
pub mod digits;
pub mod error;
pub mod fetch;
pub mod jsonval;
pub mod list;
pub mod params;
pub mod records;
pub mod request;
pub mod write;
