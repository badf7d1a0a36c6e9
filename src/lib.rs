//! Typed model, tolerant decoding and merging of a transit agency's
//! GTFS-realtime trip-update and vehicle-position feeds.

pub mod bearing;
pub mod codes;
pub mod envelope;
pub mod ident;
pub mod merge;
pub mod model;
pub mod query;
pub mod wire;
