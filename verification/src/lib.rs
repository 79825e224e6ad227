//! Record codec for a support-ticket bot's document store.
//!
//! Four record types — tickets, server configurations, channel parameters
//! and user profiles — map losslessly to and from BSON documents. Enumerated
//! fields are stored as integers from fixed code tables, identifiers as
//! standard UUID binary values, and timestamps as UTC instants with
//! millisecond resolution. Decoding never defaults a field: a missing or
//! malformed field fails the whole decode with a typed error.

pub mod document;
pub mod error;
pub mod server;
pub mod status;
pub mod ticket;
pub mod user;
