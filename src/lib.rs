//! A typed client core for a versioned REST+XML map-data API: request
//! composition, wire encoding and decoding, query lowering and response
//! classification, each with a verified contract.

pub mod api;
pub mod changes;
pub mod changeset;
pub mod client;
pub mod codec;
pub mod decimal;
pub mod elements;
pub mod envelope;
pub mod errors;
pub mod gpx;
pub mod query;
pub mod records;
pub mod text;
pub mod types;
pub mod users;
pub mod xml;
