//! The feed as it arrives on the wire, before decoding: enumerations are raw
//! codes, defaults are not yet applied, and the bearing keeps its wire shape.
//! Decoding turns it into the typed model, or fails on the first field that
//! carries an unknown code or an unusable bearing.

use vstd::prelude::*;
use crate::bearing::{deserialize_bearing, spec_decode_bearing, BearingWire, BEARING_WHOLE_MAX};
use crate::codes::{
    CongestionLevel, DecodeError, Incrementality, OccupancyStatus, ScheduleRelationship,
    ScheduleRelationshipTripDescriptor, VehicleStopStatus,
};
use crate::envelope::{ATResponse, Header, Response};
use crate::model::{
    copy_opt_string, Entity, Position, StopTimeEvent, StopTimeUpdate, TripDescriptor, TripUpdate,
    VehicleDescriptor, VehiclePosition,
};

verus! {

/// A trip descriptor as sent; `schedule_relationship` is a raw code.
#[derive(Debug)]
pub struct RawTripDescriptor {
    pub trip_id: Option<String>,
    pub route_id: Option<String>,
    pub direction_id: Option<u32>,
    pub start_time: Option<String>,
    pub start_date: Option<String>,
    pub schedule_relationship: Option<u8>,
}

/// A stop-time update as sent; `schedule_relationship` is a raw code.
#[derive(Debug)]
pub struct RawStopTimeUpdate {
    pub stop_sequence: Option<u32>,
    pub stop_id: Option<String>,
    pub arrival: Option<StopTimeEvent>,
    pub departure: Option<StopTimeEvent>,
    pub schedule_relationship: Option<u8>,
}

/// A trip update as sent.
#[derive(Debug)]
pub struct RawTripUpdate {
    pub trip: RawTripDescriptor,
    pub vehicle: Option<VehicleDescriptor>,
    pub stop_time_update: Option<RawStopTimeUpdate>,
    pub timestamp: Option<u64>,
    pub delay: Option<i32>,
}

/// A position as sent; floats are bit patterns, the bearing keeps its shape.
#[derive(Debug, Clone, Copy)]
pub struct RawPosition {
    pub latitude: u32,
    pub longitude: u32,
    pub bearing: BearingWire,
    pub odometer: Option<u64>,
    pub speed: Option<u32>,
}

/// A vehicle position as sent; status, congestion and occupancy are raw codes.
#[derive(Debug)]
pub struct RawVehiclePosition {
    pub trip: Option<RawTripDescriptor>,
    pub vehicle: Option<VehicleDescriptor>,
    pub position: Option<RawPosition>,
    pub current_stop_sequence: Option<u32>,
    pub stop_id: Option<String>,
    pub current_status: Option<u8>,
    pub timestamp: Option<u64>,
    pub congestion_level: Option<u8>,
    pub occupancy_status: Option<u8>,
}

/// A feed record as sent; `is_deleted` may be missing.
#[derive(Debug)]
pub struct RawEntity {
    pub id: String,
    pub trip_update: Option<RawTripUpdate>,
    pub vehicle: Option<RawVehiclePosition>,
    pub is_deleted: Option<bool>,
}

/// A feed header as sent; `incrementality` is a raw code.
#[derive(Debug)]
pub struct RawHeader {
    pub gtfs_realtime_version: String,
    pub incrementality: Option<u8>,
    pub timestamp: Option<u64>,
}

/// The body of a feed as sent.
#[derive(Debug)]
pub struct RawResponse {
    pub header: RawHeader,
    pub entity: Vec<RawEntity>,
}

/// A whole feed fetch as sent.
#[derive(Debug)]
pub struct RawEnvelope {
    pub status: String,
    pub response: RawResponse,
    pub error: Option<()>,
}

// What each record decodes to.

pub open spec fn spec_decode_trip(r: RawTripDescriptor) -> Result<TripDescriptor, DecodeError> {
    match ScheduleRelationshipTripDescriptor::spec_decode(r.schedule_relationship) {
        Ok(s) => Ok(
            TripDescriptor {
                trip_id: r.trip_id,
                route_id: r.route_id,
                direction_id: r.direction_id,
                start_time: r.start_time,
                start_date: r.start_date,
                schedule_relationship: s,
            },
        ),
        Err(e) => Err(e),
    }
}

pub open spec fn spec_decode_stop_time_update(r: RawStopTimeUpdate) -> Result<
    StopTimeUpdate,
    DecodeError,
> {
    match ScheduleRelationship::spec_decode(r.schedule_relationship) {
        Ok(s) => Ok(
            StopTimeUpdate {
                stop_sequence: r.stop_sequence,
                stop_id: r.stop_id,
                arrival: r.arrival,
                departure: r.departure,
                schedule_relationship: s,
            },
        ),
        Err(e) => Err(e),
    }
}

pub open spec fn spec_decode_trip_update(r: RawTripUpdate) -> Result<TripUpdate, DecodeError> {
    match spec_decode_trip(r.trip) {
        Err(e) => Err(e),
        Ok(trip) => match r.stop_time_update {
            None => Ok(
                TripUpdate {
                    trip,
                    vehicle: r.vehicle,
                    stop_time_update: None,
                    timestamp: r.timestamp,
                    delay: r.delay,
                },
            ),
            Some(s) => match spec_decode_stop_time_update(s) {
                Err(e) => Err(e),
                Ok(stu) => Ok(
                    TripUpdate {
                        trip,
                        vehicle: r.vehicle,
                        stop_time_update: Some(stu),
                        timestamp: r.timestamp,
                        delay: r.delay,
                    },
                ),
            },
        },
    }
}

pub open spec fn spec_decode_position(r: RawPosition) -> Result<Position, DecodeError> {
    match spec_decode_bearing(r.bearing) {
        Ok(b) => Ok(
            Position {
                latitude: r.latitude,
                longitude: r.longitude,
                bearing: b,
                odometer: r.odometer,
                speed: r.speed,
            },
        ),
        Err(e) => Err(e),
    }
}

pub open spec fn spec_decode_opt_trip(r: Option<RawTripDescriptor>) -> Result<
    Option<TripDescriptor>,
    DecodeError,
> {
    match r {
        None => Ok(None),
        Some(t) => match spec_decode_trip(t) {
            Ok(d) => Ok(Some(d)),
            Err(e) => Err(e),
        },
    }
}

pub open spec fn spec_decode_opt_position(r: Option<RawPosition>) -> Result<
    Option<Position>,
    DecodeError,
> {
    match r {
        None => Ok(None),
        Some(p) => match spec_decode_position(p) {
            Ok(d) => Ok(Some(d)),
            Err(e) => Err(e),
        },
    }
}

pub open spec fn spec_decode_vehicle(r: RawVehiclePosition) -> Result<VehiclePosition, DecodeError> {
    match spec_decode_opt_trip(r.trip) {
        Err(e) => Err(e),
        Ok(trip) => match spec_decode_opt_position(r.position) {
            Err(e) => Err(e),
            Ok(position) => match VehicleStopStatus::spec_decode(r.current_status) {
                Err(e) => Err(e),
                Ok(current_status) => match CongestionLevel::spec_decode(r.congestion_level) {
                    Err(e) => Err(e),
                    Ok(congestion_level) => match OccupancyStatus::spec_decode(r.occupancy_status) {
                        Err(e) => Err(e),
                        Ok(occupancy_status) => Ok(
                            VehiclePosition {
                                trip,
                                vehicle: r.vehicle,
                                position,
                                current_stop_sequence: r.current_stop_sequence,
                                stop_id: r.stop_id,
                                current_status,
                                timestamp: r.timestamp,
                                congestion_level,
                                occupancy_status,
                            },
                        ),
                    },
                },
            },
        },
    }
}

pub open spec fn spec_decode_entity(r: RawEntity) -> Result<Entity, DecodeError> {
    let is_deleted = match r.is_deleted {
        Some(b) => b,
        None => false,
    };
    match r.trip_update {
        Some(t) if spec_decode_trip_update(t) is Err => Err(spec_decode_trip_update(t)->Err_0),
        _ => match r.vehicle {
            Some(v) if spec_decode_vehicle(v) is Err => Err(spec_decode_vehicle(v)->Err_0),
            _ => Ok(
                Entity {
                    id: r.id,
                    trip_update: match r.trip_update {
                        Some(t) => Some(spec_decode_trip_update(t)->Ok_0),
                        None => None,
                    },
                    vehicle: match r.vehicle {
                        Some(v) => Some(spec_decode_vehicle(v)->Ok_0),
                        None => None,
                    },
                    is_deleted,
                },
            ),
        },
    }
}

pub open spec fn spec_decode_entities(s: Seq<RawEntity>) -> Result<Seq<Entity>, DecodeError>
    decreases s.len(),
{
    if s.len() == 0 {
        Ok(Seq::empty())
    } else {
        match spec_decode_entities(s.drop_last()) {
            Err(e) => Err(e),
            Ok(prev) => match spec_decode_entity(s.last()) {
                Err(e) => Err(e),
                Ok(e) => Ok(prev.push(e)),
            },
        }
    }
}

pub open spec fn spec_decode_header(r: RawHeader) -> Result<Header, DecodeError> {
    match Incrementality::spec_decode(r.incrementality) {
        Ok(i) => Ok(
            Header {
                gtfs_realtime_version: r.gtfs_realtime_version,
                incrementality: i,
                timestamp: r.timestamp,
            },
        ),
        Err(e) => Err(e),
    }
}

/// Whether `r` is what decoding `raw` gives: the first error met, reading
/// the header first and then the entities in order, or else the envelope
/// with every field decoded.
pub open spec fn decodes_to(raw: RawEnvelope, r: Result<ATResponse, DecodeError>) -> bool {
    match spec_decode_header(raw.response.header) {
        Err(e) => r == Err::<ATResponse, DecodeError>(e),
        Ok(h) => match spec_decode_entities(raw.response.entity@) {
            Err(e) => r == Err::<ATResponse, DecodeError>(e),
            Ok(es) => {
                &&& r is Ok
                &&& r->Ok_0.status == raw.status
                &&& r->Ok_0.error == raw.error
                &&& r->Ok_0.response.header == h
                &&& r->Ok_0.response.entity@ == es
            },
        },
    }
}

fn decode_trip(r: &RawTripDescriptor) -> (out: Result<TripDescriptor, DecodeError>)
    ensures
        out == spec_decode_trip(*r),
{
    let schedule_relationship = match ScheduleRelationshipTripDescriptor::decode(
        r.schedule_relationship,
    ) {
        Ok(s) => s,
        Err(e) => return Err(e),
    };
    Ok(
        TripDescriptor {
            trip_id: copy_opt_string(&r.trip_id),
            route_id: copy_opt_string(&r.route_id),
            direction_id: r.direction_id,
            start_time: copy_opt_string(&r.start_time),
            start_date: copy_opt_string(&r.start_date),
            schedule_relationship,
        },
    )
}

fn decode_stop_time_update(r: &RawStopTimeUpdate) -> (out: Result<StopTimeUpdate, DecodeError>)
    ensures
        out == spec_decode_stop_time_update(*r),
{
    let schedule_relationship = match ScheduleRelationship::decode(r.schedule_relationship) {
        Ok(s) => s,
        Err(e) => return Err(e),
    };
    Ok(
        StopTimeUpdate {
            stop_sequence: r.stop_sequence,
            stop_id: copy_opt_string(&r.stop_id),
            arrival: r.arrival,
            departure: r.departure,
            schedule_relationship,
        },
    )
}

fn decode_trip_update(r: &RawTripUpdate) -> (out: Result<TripUpdate, DecodeError>)
    ensures
        out == spec_decode_trip_update(*r),
{
    let trip = match decode_trip(&r.trip) {
        Ok(t) => t,
        Err(e) => return Err(e),
    };
    let stop_time_update = match &r.stop_time_update {
        None => None,
        Some(s) => match decode_stop_time_update(s) {
            Ok(u) => Some(u),
            Err(e) => return Err(e),
        },
    };
    let vehicle = match &r.vehicle {
        Some(v) => Some(v.clone()),
        None => None,
    };
    Ok(TripUpdate { trip, vehicle, stop_time_update, timestamp: r.timestamp, delay: r.delay })
}

fn decode_position(r: &RawPosition) -> (out: Result<Position, DecodeError>)
    ensures
        out == spec_decode_position(*r),
{
    let bearing = match deserialize_bearing(r.bearing) {
        Ok(b) => b,
        Err(e) => return Err(e),
    };
    Ok(
        Position {
            latitude: r.latitude,
            longitude: r.longitude,
            bearing,
            odometer: r.odometer,
            speed: r.speed,
        },
    )
}

fn decode_vehicle(r: &RawVehiclePosition) -> (out: Result<VehiclePosition, DecodeError>)
    ensures
        out == spec_decode_vehicle(*r),
{
    let trip = match &r.trip {
        None => None,
        Some(t) => match decode_trip(t) {
            Ok(d) => Some(d),
            Err(e) => return Err(e),
        },
    };
    let position = match &r.position {
        None => None,
        Some(p) => match decode_position(p) {
            Ok(d) => Some(d),
            Err(e) => return Err(e),
        },
    };
    let current_status = match VehicleStopStatus::decode(r.current_status) {
        Ok(s) => s,
        Err(e) => return Err(e),
    };
    let congestion_level = match CongestionLevel::decode(r.congestion_level) {
        Ok(c) => c,
        Err(e) => return Err(e),
    };
    let occupancy_status = match OccupancyStatus::decode(r.occupancy_status) {
        Ok(o) => o,
        Err(e) => return Err(e),
    };
    let vehicle = match &r.vehicle {
        Some(v) => Some(v.clone()),
        None => None,
    };
    Ok(
        VehiclePosition {
            trip,
            vehicle,
            position,
            current_stop_sequence: r.current_stop_sequence,
            stop_id: copy_opt_string(&r.stop_id),
            current_status,
            timestamp: r.timestamp,
            congestion_level,
            occupancy_status,
        },
    )
}

/// Decodes one entity; an absent `is_deleted` is `false`.
pub fn decode_entity(r: &RawEntity) -> (out: Result<Entity, DecodeError>)
    ensures
        out == spec_decode_entity(*r),
{
    let trip_update = match &r.trip_update {
        None => None,
        Some(t) => match decode_trip_update(t) {
            Ok(u) => Some(u),
            Err(e) => return Err(e),
        },
    };
    let vehicle = match &r.vehicle {
        None => None,
        Some(v) => match decode_vehicle(v) {
            Ok(d) => Some(d),
            Err(e) => return Err(e),
        },
    };
    let is_deleted = match r.is_deleted {
        Some(b) => b,
        None => false,
    };
    Ok(Entity { id: r.id.clone(), trip_update, vehicle, is_deleted })
}

/// Decodes a feed header; an absent incrementality is `FullDataset`.
pub fn decode_header(r: &RawHeader) -> (out: Result<Header, DecodeError>)
    ensures
        out == spec_decode_header(*r),
{
    let incrementality = match Incrementality::decode(r.incrementality) {
        Ok(i) => i,
        Err(e) => return Err(e),
    };
    Ok(
        Header {
            gtfs_realtime_version: r.gtfs_realtime_version.clone(),
            incrementality,
            timestamp: r.timestamp,
        },
    )
}

/// Decodes a whole envelope, or fails with the first decode error: no
/// partly decoded envelope is returned.
pub fn decode_envelope(raw: &RawEnvelope) -> (r: Result<ATResponse, DecodeError>)
    ensures
        decodes_to(*raw, r),
        r is Ok <==> envelope_valid(*raw),
{
    proof {
        lemma_decoding_total(*raw);
    }
    let header = match decode_header(&raw.response.header) {
        Ok(h) => h,
        Err(e) => return Err(e),
    };
    let items = &raw.response.entity;
    let mut entity: Vec<Entity> = Vec::new();
    let mut i: usize = 0;
    while i < items.len()
        invariant
            i <= items@.len(),
            items@ == raw.response.entity@,
            spec_decode_header(raw.response.header) == Ok::<Header, DecodeError>(header),
            spec_decode_entities(items@.take(i as int)) == Ok::<Seq<Entity>, DecodeError>(entity@),
        decreases items@.len() - i,
    {
        let ghost prefix = items@.take(i as int + 1);
        assert(prefix.drop_last() =~= items@.take(i as int));
        assert(prefix.last() == items@[i as int]);
        let e = match decode_entity(&items[i]) {
            Ok(e) => e,
            Err(err) => {
                proof {
                    assert(spec_decode_entities(prefix) == Err::<Seq<Entity>, DecodeError>(err));
                    lemma_decode_error_stays(items@, i as int + 1);
                    lemma_decoding_total(*raw);
                }
                return Err(err);
            },
        };
        entity.push(e);
        i = i + 1;
    }
    assert(items@.take(items@.len() as int) =~= items@);
    Ok(
        ATResponse {
            status: raw.status.clone(),
            response: Response { header, entity },
            error: raw.error,
        },
    )
}

/// Once a prefix of the entities fails to decode, so does every longer one,
/// with the same error.
proof fn lemma_decode_error_stays(s: Seq<RawEntity>, i: int)
    requires
        0 <= i <= s.len(),
        spec_decode_entities(s.take(i)) is Err,
    ensures
        spec_decode_entities(s) == spec_decode_entities(s.take(i)),
    decreases s.len() - i,
{
    if i < s.len() {
        let next = s.take(i + 1);
        assert(next.drop_last() =~= s.take(i));
        lemma_decode_error_stays(s, i + 1);
    } else {
        assert(s.take(i) =~= s);
    }
}

// Which wire records decode: every enumeration code that is present names
// a variant, and every bearing that is present has a usable shape. Absent
// optional fields never matter.

/// An optional code that, when present, is one of the first `n` codes.
pub open spec fn code_below(code: Option<u8>, n: u8) -> bool {
    code is None || code->Some_0 < n
}

/// A bearing wire shape that decodes.
pub open spec fn bearing_wire_valid(w: BearingWire) -> bool {
    match w {
        BearingWire::Unsigned(v) => v <= BEARING_WHOLE_MAX,
        BearingWire::Text(t) => t is Some,
        BearingWire::Other => false,
        _ => true,
    }
}

pub open spec fn trip_valid(r: RawTripDescriptor) -> bool {
    code_below(r.schedule_relationship, 4)
}

pub open spec fn trip_update_valid(r: RawTripUpdate) -> bool {
    &&& trip_valid(r.trip)
    &&& r.stop_time_update is Some ==> code_below(r.stop_time_update->Some_0.schedule_relationship, 3)
}

pub open spec fn vehicle_valid(r: RawVehiclePosition) -> bool {
    &&& r.trip is Some ==> trip_valid(r.trip->Some_0)
    &&& r.position is Some ==> bearing_wire_valid(r.position->Some_0.bearing)
    &&& code_below(r.current_status, 3)
    &&& code_below(r.congestion_level, 5)
    &&& code_below(r.occupancy_status, 7)
}

pub open spec fn entity_valid(r: RawEntity) -> bool {
    &&& r.trip_update is Some ==> trip_update_valid(r.trip_update->Some_0)
    &&& r.vehicle is Some ==> vehicle_valid(r.vehicle->Some_0)
}

/// An envelope in which every present code names a variant and every
/// present bearing has a usable shape.
pub open spec fn envelope_valid(raw: RawEnvelope) -> bool {
    &&& code_below(raw.response.header.incrementality, 2)
    &&& forall|i: int|
        0 <= i < raw.response.entity@.len() ==> #[trigger] entity_valid(raw.response.entity@[i])
}

proof fn lemma_entity_decodes(r: RawEntity)
    ensures
        spec_decode_entity(r) is Ok <==> entity_valid(r),
{
}

proof fn lemma_entities_decode(s: Seq<RawEntity>)
    ensures
        spec_decode_entities(s) is Ok <==> forall|i: int| 0 <= i < s.len() ==> #[trigger] entity_valid(s[i]),
    decreases s.len(),
{
    if s.len() > 0 {
        let rest = s.drop_last();
        lemma_entities_decode(rest);
        lemma_entity_decodes(s.last());
        if forall|i: int| 0 <= i < s.len() ==> #[trigger] entity_valid(s[i]) {
            assert forall|i: int| 0 <= i < rest.len() implies #[trigger] entity_valid(rest[i]) by {
                assert(rest[i] == s[i]);
                assert(entity_valid(s[i]));
            }
            assert(entity_valid(s[s.len() - 1]));
        }
        if spec_decode_entities(s) is Ok {
            assert forall|i: int| 0 <= i < s.len() implies #[trigger] entity_valid(s[i]) by {
                if i < s.len() - 1 {
                    assert(rest[i] == s[i]);
                    assert(entity_valid(rest[i]));
                }
            }
        }
    }
}

/// Decoding is total over the schema: an envelope decodes exactly when every
/// enumeration code present in it names a variant and every bearing present
/// in it has a usable shape, whatever optional fields are absent.
pub proof fn lemma_decoding_total(raw: RawEnvelope)
    ensures
        (spec_decode_header(raw.response.header) is Ok && spec_decode_entities(raw.response.entity@) is Ok)
            <==> envelope_valid(raw),
{
    lemma_entities_decode(raw.response.entity@);
}

/// Absent fields with a stated default decode to that default: a stop-time
/// update's relationship to `Scheduled`, a vehicle's stop status to
/// `InTransitTo`, a header's incrementality to `FullDataset`; an absent
/// `is_deleted` to `false`.
pub proof fn lemma_absent_defaults(
    stu: RawStopTimeUpdate,
    vehicle: RawVehiclePosition,
    header: RawHeader,
    entity: RawEntity,
)
    requires
        stu.schedule_relationship is None,
        vehicle.current_status is None,
        header.incrementality is None,
        entity.is_deleted is None,
    ensures
        spec_decode_stop_time_update(stu) is Ok,
        spec_decode_stop_time_update(stu)->Ok_0.schedule_relationship
            == ScheduleRelationship::Scheduled,
        spec_decode_vehicle(vehicle) is Ok ==> spec_decode_vehicle(vehicle)->Ok_0.current_status
            == VehicleStopStatus::InTransitTo,
        spec_decode_header(header) is Ok,
        spec_decode_header(header)->Ok_0.incrementality == Incrementality::FullDataset,
        spec_decode_entity(entity) is Ok ==> !spec_decode_entity(entity)->Ok_0.is_deleted,
{
}

} // verus!
