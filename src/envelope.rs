//! The outer message of a feed fetch: status, feed header and entities.

use vstd::prelude::*;
use crate::codes::Incrementality;
use crate::model::Entity;

verus! {

/// Feed metadata.
#[derive(Debug, PartialEq)]
pub struct Header {
    pub gtfs_realtime_version: String,
    pub incrementality: Incrementality,
    /// Seconds, as a double-precision bit pattern.
    pub timestamp: Option<u64>,
}

impl Clone for Header {
    fn clone(&self) -> (r: Self)
        ensures
            r == *self,
    {
        Header {
            gtfs_realtime_version: self.gtfs_realtime_version.clone(),
            incrementality: self.incrementality,
            timestamp: self.timestamp,
        }
    }
}

/// The body of a feed fetch: header and entities in the order received.
#[derive(Debug, PartialEq)]
pub struct Response {
    pub header: Header,
    pub entity: Vec<Entity>,
}

/// A whole feed fetch: status, body, and an error marker that is present
/// only on failure.
#[derive(Debug, PartialEq)]
pub struct ATResponse {
    pub status: String,
    pub response: Response,
    pub error: Option<()>,
}

} // verus!
