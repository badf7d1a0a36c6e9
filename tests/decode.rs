use at_api::bearing::{deserialize_bearing, Bearing, BearingWire};
use at_api::codes::{
    CongestionLevel, DecodeError, Field, Incrementality, OccupancyStatus, ScheduleRelationship,
    ScheduleRelationshipTripDescriptor, VehicleStopStatus,
};
use at_api::wire::{
    decode_entity, decode_envelope, decode_header, RawEntity, RawEnvelope, RawHeader, RawPosition,
    RawResponse, RawStopTimeUpdate, RawTripDescriptor, RawTripUpdate, RawVehiclePosition,
};

fn raw_trip(code: Option<u8>) -> RawTripDescriptor {
    RawTripDescriptor {
        trip_id: Some("T1".to_string()),
        route_id: None,
        direction_id: None,
        start_time: None,
        start_date: None,
        schedule_relationship: code,
    }
}

fn raw_stop(code: Option<u8>) -> RawStopTimeUpdate {
    RawStopTimeUpdate {
        stop_sequence: Some(4),
        stop_id: Some("S-1".to_string()),
        arrival: None,
        departure: None,
        schedule_relationship: code,
    }
}

fn raw_vehicle(status: Option<u8>, bearing: BearingWire) -> RawVehiclePosition {
    RawVehiclePosition {
        trip: Some(raw_trip(None)),
        vehicle: None,
        position: Some(RawPosition {
            latitude: (-36.85f32).to_bits(),
            longitude: 174.76f32.to_bits(),
            bearing,
            odometer: None,
            speed: None,
        }),
        current_stop_sequence: None,
        stop_id: None,
        current_status: status,
        timestamp: None,
        congestion_level: None,
        occupancy_status: None,
    }
}

fn raw_header(code: Option<u8>) -> RawHeader {
    RawHeader { gtfs_realtime_version: "1.0".to_string(), incrementality: code, timestamp: None }
}

fn envelope(entity: Vec<RawEntity>) -> RawEnvelope {
    RawEnvelope {
        status: "OK".to_string(),
        response: RawResponse { header: raw_header(None), entity },
        error: None,
    }
}

fn bare_entity(id: &str) -> RawEntity {
    RawEntity { id: id.to_string(), trip_update: None, vehicle: None, is_deleted: None }
}

#[test]
fn bearing_float_is_kept() {
    let bits = 12.5f32.to_bits();
    assert_eq!(deserialize_bearing(BearingWire::Float(bits)), Ok(Some(Bearing::Float(bits))));
}

#[test]
fn bearing_numeric_text_is_kept() {
    let bits = 7.0f32.to_bits();
    assert_eq!(deserialize_bearing(BearingWire::Text(Some(bits))), Ok(Some(Bearing::Float(bits))));
}

#[test]
fn bearing_absent_or_null_is_none() {
    assert_eq!(deserialize_bearing(BearingWire::Absent), Ok(None));
    assert_eq!(deserialize_bearing(BearingWire::Null), Ok(None));
}

#[test]
fn bearing_whole_number_in_range() {
    assert_eq!(deserialize_bearing(BearingWire::Unsigned(7)), Ok(Some(Bearing::Whole(7))));
    assert_eq!(deserialize_bearing(BearingWire::Unsigned(32767)), Ok(Some(Bearing::Whole(32767))));
}

#[test]
fn bearing_whole_number_out_of_range_fails() {
    assert_eq!(
        deserialize_bearing(BearingWire::Unsigned(65536)),
        Err(DecodeError::BearingOutOfRange { value: 65536 })
    );
    assert_eq!(
        deserialize_bearing(BearingWire::Unsigned(32768)),
        Err(DecodeError::BearingOutOfRange { value: 32768 })
    );
}

#[test]
fn bearing_non_numeric_text_fails() {
    assert_eq!(deserialize_bearing(BearingWire::Text(None)), Err(DecodeError::BearingNotNumeric));
}

#[test]
fn bearing_other_shape_fails() {
    assert_eq!(deserialize_bearing(BearingWire::Other), Err(DecodeError::BearingUnsupportedShape));
}

#[test]
fn codes_map_to_variants() {
    assert_eq!(ScheduleRelationship::from_code(1), Some(ScheduleRelationship::Skipped));
    assert_eq!(ScheduleRelationship::from_code(3), None);
    assert_eq!(VehicleStopStatus::from_code(1), Some(VehicleStopStatus::StoppedAt));
    assert_eq!(CongestionLevel::from_code(4), Some(CongestionLevel::SevereCongestion));
    assert_eq!(CongestionLevel::from_code(5), None);
    assert_eq!(OccupancyStatus::from_code(6), Some(OccupancyStatus::NotAcceptingPassengers));
    assert_eq!(OccupancyStatus::from_code(7), None);
    assert_eq!(
        ScheduleRelationshipTripDescriptor::from_code(3),
        Some(ScheduleRelationshipTripDescriptor::Cancelled)
    );
    assert_eq!(Incrementality::from_code(1), Some(Incrementality::Differential));
    assert_eq!(Incrementality::from_code(2), None);
}

#[test]
fn absent_codes_take_defaults() {
    assert_eq!(ScheduleRelationship::decode(None), Ok(ScheduleRelationship::Scheduled));
    assert_eq!(VehicleStopStatus::decode(None), Ok(VehicleStopStatus::InTransitTo));
    assert_eq!(Incrementality::decode(None), Ok(Incrementality::FullDataset));
    assert_eq!(CongestionLevel::decode(None), Ok(None));
    assert_eq!(OccupancyStatus::decode(None), Ok(None));
    assert_eq!(ScheduleRelationshipTripDescriptor::decode(None), Ok(None));
    assert_eq!(ScheduleRelationship::default(), ScheduleRelationship::Scheduled);
    assert_eq!(VehicleStopStatus::default(), VehicleStopStatus::InTransitTo);
    assert_eq!(Incrementality::default(), Incrementality::FullDataset);
}

#[test]
fn unknown_codes_fail_with_field() {
    assert_eq!(
        VehicleStopStatus::decode(Some(9)),
        Err(DecodeError::UnknownCode { field: Field::CurrentStatus, code: 9 })
    );
    assert_eq!(
        CongestionLevel::decode(Some(5)),
        Err(DecodeError::UnknownCode { field: Field::CongestionLevel, code: 5 })
    );
    assert_eq!(
        ScheduleRelationship::decode(Some(3)),
        Err(DecodeError::UnknownCode { field: Field::StopScheduleRelationship, code: 3 })
    );
}

#[test]
fn stop_time_update_defaults_to_scheduled() {
    let raw = RawEntity {
        id: "T1".to_string(),
        trip_update: Some(RawTripUpdate {
            trip: raw_trip(None),
            vehicle: None,
            stop_time_update: Some(raw_stop(None)),
            timestamp: None,
            delay: Some(30),
        }),
        vehicle: None,
        is_deleted: None,
    };
    let e = decode_entity(&raw).unwrap();
    let tu = e.trip_update.unwrap();
    assert_eq!(tu.stop_time_update.unwrap().schedule_relationship, ScheduleRelationship::Scheduled);
    assert_eq!(tu.delay, Some(30));
    assert!(!e.is_deleted);
}

#[test]
fn vehicle_defaults_to_in_transit() {
    let raw = RawEntity {
        id: "V1".to_string(),
        trip_update: None,
        vehicle: Some(raw_vehicle(None, BearingWire::Absent)),
        is_deleted: Some(true),
    };
    let e = decode_entity(&raw).unwrap();
    let v = e.vehicle.unwrap();
    assert_eq!(v.current_status, VehicleStopStatus::InTransitTo);
    assert_eq!(v.position.unwrap().bearing, None);
    assert!(e.is_deleted);
}

#[test]
fn header_defaults_to_full_dataset() {
    let h = decode_header(&raw_header(None)).unwrap();
    assert_eq!(h.incrementality, Incrementality::FullDataset);
    assert_eq!(h.gtfs_realtime_version, "1.0");
    let h = decode_header(&raw_header(Some(1))).unwrap();
    assert_eq!(h.incrementality, Incrementality::Differential);
}

#[test]
fn envelope_with_only_required_fields_decodes() {
    let raw = envelope(vec![bare_entity("A"), bare_entity("B")]);
    let env = decode_envelope(&raw).unwrap();
    assert_eq!(env.status, "OK");
    assert_eq!(env.error, None);
    assert_eq!(env.response.entity.len(), 2);
    assert_eq!(env.response.entity[1].id, "B");
    assert!(env.response.entity[0].trip_update.is_none());
}

#[test]
fn envelope_fails_on_first_bad_field() {
    let mut bad = bare_entity("B");
    bad.vehicle = Some(raw_vehicle(Some(1), BearingWire::Unsigned(65536)));
    let mut worse = bare_entity("C");
    worse.vehicle = Some(raw_vehicle(Some(7), BearingWire::Absent));
    let raw = envelope(vec![bare_entity("A"), bad, worse]);
    assert_eq!(decode_envelope(&raw), Err(DecodeError::BearingOutOfRange { value: 65536 }));
}

#[test]
fn envelope_fails_on_unknown_trip_code() {
    let mut bad = bare_entity("A");
    bad.trip_update = Some(RawTripUpdate {
        trip: raw_trip(Some(4)),
        vehicle: None,
        stop_time_update: None,
        timestamp: None,
        delay: None,
    });
    let raw = envelope(vec![bad]);
    assert_eq!(
        decode_envelope(&raw),
        Err(DecodeError::UnknownCode { field: Field::TripScheduleRelationship, code: 4 })
    );
}

#[test]
fn envelope_fails_on_unknown_incrementality() {
    let mut raw = envelope(vec![]);
    raw.response.header.incrementality = Some(2);
    assert_eq!(
        decode_envelope(&raw),
        Err(DecodeError::UnknownCode { field: Field::Incrementality, code: 2 })
    );
}
