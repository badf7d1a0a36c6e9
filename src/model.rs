//! The typed GTFS-realtime entity tree. Floating-point quantities are held as
//! their IEEE-754 bit patterns, so values are carried through unchanged.

use vstd::prelude::*;
use crate::bearing::Bearing;
use crate::codes::{
    CongestionLevel, OccupancyStatus, ScheduleRelationship, ScheduleRelationshipTripDescriptor,
    VehicleStopStatus,
};
use crate::ident::{prefix_before, strip_version, VERSION_SEPARATOR};

verus! {

/// The view of an optional string as optional characters.
pub open spec fn opt_chars(o: Option<String>) -> Option<Seq<char>> {
    match o {
        Some(s) => Some(s@),
        None => None,
    }
}

/// A copy of an optional string.
pub fn copy_opt_string(o: &Option<String>) -> (r: Option<String>)
    ensures
        r == *o,
{
    match o {
        Some(s) => Some(s.clone()),
        None => None,
    }
}

/// One feed record.
#[derive(Debug, PartialEq)]
pub struct Entity {
    pub id: String,
    pub trip_update: Option<TripUpdate>,
    pub vehicle: Option<VehiclePosition>,
    pub is_deleted: bool,
}

/// A schedule deviation for one trip.
#[derive(Debug, PartialEq)]
pub struct TripUpdate {
    pub trip: TripDescriptor,
    pub vehicle: Option<VehicleDescriptor>,
    pub stop_time_update: Option<StopTimeUpdate>,
    pub timestamp: Option<u64>,
    pub delay: Option<i32>,
}

/// The update of one stop's arrival and departure.
#[derive(Debug, PartialEq)]
pub struct StopTimeUpdate {
    pub stop_sequence: Option<u32>,
    pub stop_id: Option<String>,
    pub arrival: Option<StopTimeEvent>,
    pub departure: Option<StopTimeEvent>,
    pub schedule_relationship: ScheduleRelationship,
}

/// Timing of one arrival or departure.
#[derive(Debug, Clone, Copy, PartialEq, Eq, Structural)]
pub struct StopTimeEvent {
    pub delay: Option<i32>,
    pub time: Option<i64>,
    pub uncertainty: Option<i32>,
}

/// A vehicle's location, status and trip linkage.
#[derive(Debug, PartialEq)]
pub struct VehiclePosition {
    pub trip: Option<TripDescriptor>,
    pub vehicle: Option<VehicleDescriptor>,
    pub position: Option<Position>,
    pub current_stop_sequence: Option<u32>,
    pub stop_id: Option<String>,
    pub current_status: VehicleStopStatus,
    pub timestamp: Option<u64>,
    pub congestion_level: Option<CongestionLevel>,
    pub occupancy_status: Option<OccupancyStatus>,
}

/// A geographic position. `latitude`, `longitude` and `speed` are
/// single-precision bit patterns, `odometer` a double-precision one.
#[derive(Debug, Clone, Copy, PartialEq, Eq, Structural)]
pub struct Position {
    pub latitude: u32,
    pub longitude: u32,
    pub bearing: Option<Bearing>,
    pub odometer: Option<u64>,
    pub speed: Option<u32>,
}

/// Identifies a trip.
#[derive(Debug, PartialEq)]
pub struct TripDescriptor {
    pub trip_id: Option<String>,
    pub route_id: Option<String>,
    pub direction_id: Option<u32>,
    pub start_time: Option<String>,
    pub start_date: Option<String>,
    pub schedule_relationship: Option<ScheduleRelationshipTripDescriptor>,
}

/// Identifies a vehicle.
#[derive(Debug, PartialEq)]
pub struct VehicleDescriptor {
    pub id: Option<String>,
    pub label: Option<String>,
    pub license_plate: Option<String>,
}

impl Clone for VehicleDescriptor {
    fn clone(&self) -> (r: Self)
        ensures
            r == *self,
    {
        VehicleDescriptor {
            id: copy_opt_string(&self.id),
            label: copy_opt_string(&self.label),
            license_plate: copy_opt_string(&self.license_plate),
        }
    }
}

impl Clone for TripDescriptor {
    fn clone(&self) -> (r: Self)
        ensures
            r == *self,
    {
        TripDescriptor {
            trip_id: copy_opt_string(&self.trip_id),
            route_id: copy_opt_string(&self.route_id),
            direction_id: self.direction_id,
            start_time: copy_opt_string(&self.start_time),
            start_date: copy_opt_string(&self.start_date),
            schedule_relationship: self.schedule_relationship,
        }
    }
}

impl Clone for StopTimeUpdate {
    fn clone(&self) -> (r: Self)
        ensures
            r == *self,
    {
        StopTimeUpdate {
            stop_sequence: self.stop_sequence,
            stop_id: copy_opt_string(&self.stop_id),
            arrival: self.arrival,
            departure: self.departure,
            schedule_relationship: self.schedule_relationship,
        }
    }
}

impl Clone for TripUpdate {
    fn clone(&self) -> (r: Self)
        ensures
            r == *self,
    {
        let vehicle = match &self.vehicle {
            Some(v) => Some(v.clone()),
            None => None,
        };
        let stop_time_update = match &self.stop_time_update {
            Some(s) => Some(s.clone()),
            None => None,
        };
        TripUpdate {
            trip: self.trip.clone(),
            vehicle,
            stop_time_update,
            timestamp: self.timestamp,
            delay: self.delay,
        }
    }
}

impl Clone for VehiclePosition {
    fn clone(&self) -> (r: Self)
        ensures
            r == *self,
    {
        let trip = match &self.trip {
            Some(t) => Some(t.clone()),
            None => None,
        };
        let vehicle = match &self.vehicle {
            Some(v) => Some(v.clone()),
            None => None,
        };
        VehiclePosition {
            trip,
            vehicle,
            position: self.position,
            current_stop_sequence: self.current_stop_sequence,
            stop_id: copy_opt_string(&self.stop_id),
            current_status: self.current_status,
            timestamp: self.timestamp,
            congestion_level: self.congestion_level,
            occupancy_status: self.occupancy_status,
        }
    }
}

impl Clone for Entity {
    fn clone(&self) -> (r: Self)
        ensures
            r == *self,
    {
        let trip_update = match &self.trip_update {
            Some(t) => Some(t.clone()),
            None => None,
        };
        let vehicle = match &self.vehicle {
            Some(v) => Some(v.clone()),
            None => None,
        };
        Entity { id: self.id.clone(), trip_update, vehicle, is_deleted: self.is_deleted }
    }
}

impl Entity {
    /// The trip id of the entity's trip update, if both are present.
    pub open spec fn raw_trip_id(&self) -> Option<String> {
        match self.trip_update {
            Some(tu) => tu.trip.trip_id,
            None => None,
        }
    }

    /// The route id of the entity's trip update, if both are present.
    pub open spec fn raw_route_id(&self) -> Option<String> {
        match self.trip_update {
            Some(tu) => tu.trip.route_id,
            None => None,
        }
    }

    /// The stop id of the entity's stop-time update, if every link is present.
    pub open spec fn raw_stop_id(&self) -> Option<String> {
        match self.trip_update {
            Some(tu) => match tu.stop_time_update {
                Some(stu) => stu.stop_id,
                None => None,
            },
            None => None,
        }
    }

    /// The version-stripped form of an optional identifier.
    pub open spec fn stripped(id: Option<String>) -> Option<Seq<char>> {
        match id {
            Some(s) => prefix_before(s@, VERSION_SEPARATOR),
            None => None,
        }
    }

    fn strip_opt(id: &Option<String>) -> (r: Option<String>)
        ensures
            opt_chars(r) == Self::stripped(*id),
    {
        match id {
            Some(s) => strip_version(s),
            None => None,
        }
    }

    /// Returns the trip id with its version suffix cut off.
    pub fn trip_id(&self) -> (r: Option<String>)
        ensures
            opt_chars(r) == Self::stripped(self.raw_trip_id()),
    {
        match &self.trip_update {
            Some(tu) => Self::strip_opt(&tu.trip.trip_id),
            None => None,
        }
    }

    /// Returns the route id with its version suffix cut off.
    pub fn route_id(&self) -> (r: Option<String>)
        ensures
            opt_chars(r) == Self::stripped(self.raw_route_id()),
    {
        match &self.trip_update {
            Some(tu) => Self::strip_opt(&tu.trip.route_id),
            None => None,
        }
    }

    /// Returns the current stop id with its version suffix cut off.
    pub fn stop_id(&self) -> (r: Option<String>)
        ensures
            opt_chars(r) == Self::stripped(self.raw_stop_id()),
    {
        match &self.trip_update {
            Some(tu) => match &tu.stop_time_update {
                Some(stu) => Self::strip_opt(&stu.stop_id),
                None => None,
            },
            None => None,
        }
    }
}

} // verus!
