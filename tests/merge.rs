use at_api::bearing::{Bearing, BearingWire};
use at_api::codes::{Incrementality, VehicleStopStatus};
use at_api::envelope::{ATResponse, Header, Response};
use at_api::merge::{decode_and_merge, merge_feeds};
use at_api::model::{Entity, Position, TripDescriptor, TripUpdate, VehicleDescriptor, VehiclePosition};
use at_api::query::{build_query, join, realtime_url, TRIP_UPDATES_PATH, VEHICLE_POSITIONS_PATH};
use at_api::wire::{RawEntity, RawEnvelope, RawHeader, RawPosition, RawResponse, RawVehiclePosition};

fn trip(id: Option<&str>) -> TripDescriptor {
    TripDescriptor {
        trip_id: id.map(String::from),
        route_id: None,
        direction_id: None,
        start_time: None,
        start_date: None,
        schedule_relationship: None,
    }
}

fn header(version: &str) -> Header {
    Header {
        gtfs_realtime_version: version.to_string(),
        incrementality: Incrementality::FullDataset,
        timestamp: Some(1.7e9f64.to_bits()),
    }
}

fn feed(version: &str, entity: Vec<Entity>) -> ATResponse {
    ATResponse {
        status: "OK".to_string(),
        response: Response { header: header(version), entity },
        error: None,
    }
}

fn trip_update_entity(id: &str, trip_id: &str, delay: i32) -> Entity {
    Entity {
        id: id.to_string(),
        trip_update: Some(TripUpdate {
            trip: trip(Some(trip_id)),
            vehicle: None,
            stop_time_update: None,
            timestamp: None,
            delay: Some(delay),
        }),
        vehicle: None,
        is_deleted: false,
    }
}

fn position() -> Position {
    Position {
        latitude: (-36.8485f32).to_bits(),
        longitude: 174.7633f32.to_bits(),
        bearing: Some(Bearing::Whole(90)),
        odometer: None,
        speed: Some(8.5f32.to_bits()),
    }
}

fn vehicle_entity(id: &str, trip_descriptor: Option<TripDescriptor>) -> Entity {
    Entity {
        id: id.to_string(),
        trip_update: None,
        vehicle: Some(VehiclePosition {
            trip: trip_descriptor,
            vehicle: Some(VehicleDescriptor {
                id: Some("bus-7".to_string()),
                label: None,
                license_plate: None,
            }),
            position: Some(position()),
            current_stop_sequence: None,
            stop_id: None,
            current_status: VehicleStopStatus::InTransitTo,
            timestamp: None,
            congestion_level: None,
            occupancy_status: None,
        }),
        is_deleted: false,
    }
}

#[test]
fn merge_joins_by_trip_id() {
    let tu = feed("tu", vec![trip_update_entity("T1", "T1", 30)]);
    let vp = feed("vp", vec![vehicle_entity("V1", Some(trip(Some("T1"))))]);
    let (h, merged) = merge_feeds(&tu, &vp);
    assert_eq!(h.gtfs_realtime_version, "tu");
    assert_eq!(merged.len(), 1);
    assert_eq!(merged[0].id, "V1");
    assert_eq!(merged[0].trip_update.as_ref().unwrap().delay, Some(30));
    assert_eq!(merged[0].vehicle.as_ref().unwrap().position, Some(position()));
    assert_eq!(vp.response.entity[0].trip_update, None);
}

#[test]
fn merge_drops_vehicle_without_trip() {
    let tu = feed("tu", vec![trip_update_entity("T1", "T1", 30)]);
    let vp = feed("vp", vec![vehicle_entity("V1", None), vehicle_entity("V2", Some(trip(None)))]);
    let (_, merged) = merge_feeds(&tu, &vp);
    assert!(merged.is_empty());
}

#[test]
fn merge_drops_vehicle_without_match() {
    let tu = feed("tu", vec![trip_update_entity("T1", "T1", 30)]);
    let vp = feed(
        "vp",
        vec![vehicle_entity("V1", Some(trip(Some("T9")))), vehicle_entity("V2", Some(trip(Some("T1"))))],
    );
    let (_, merged) = merge_feeds(&tu, &vp);
    assert_eq!(merged.len(), 1);
    assert_eq!(merged[0].id, "V2");
}

#[test]
fn merge_never_emits_trip_update_only_entities() {
    let tu = feed("tu", vec![trip_update_entity("T1", "T1", 30), trip_update_entity("T2", "T2", 5)]);
    let vp = feed("vp", vec![vehicle_entity("V1", Some(trip(Some("T1"))))]);
    let (_, merged) = merge_feeds(&tu, &vp);
    assert_eq!(merged.len(), 1);
    assert!(merged.iter().all(|e| e.id != "T1" && e.id != "T2"));
}

#[test]
fn merge_later_duplicate_wins() {
    let tu = feed("tu", vec![trip_update_entity("T1", "T1", 10), trip_update_entity("T1", "T1", 99)]);
    let vp = feed("vp", vec![vehicle_entity("V1", Some(trip(Some("T1"))))]);
    let (_, merged) = merge_feeds(&tu, &vp);
    assert_eq!(merged.len(), 1);
    assert_eq!(merged[0].trip_update.as_ref().unwrap().delay, Some(99));
}

#[test]
fn merge_with_empty_trip_updates_is_empty() {
    let tu = feed("tu", vec![]);
    let vp = feed("vp", vec![vehicle_entity("V1", Some(trip(Some("T1"))))]);
    let (h, merged) = merge_feeds(&tu, &vp);
    assert!(merged.is_empty());
    assert_eq!(h, header("tu"));
}

#[test]
fn merge_overwrites_with_absent_trip_update() {
    let mut matched = trip_update_entity("T1", "T1", 30);
    matched.trip_update = None;
    let tu = feed("tu", vec![matched]);
    let mut v = vehicle_entity("V1", Some(trip(Some("T1"))));
    v.trip_update = trip_update_entity("X", "X", 1).trip_update;
    let vp = feed("vp", vec![v]);
    let (_, merged) = merge_feeds(&tu, &vp);
    assert_eq!(merged.len(), 1);
    assert_eq!(merged[0].trip_update, None);
}

#[test]
fn merge_joins_on_entity_id() {
    let tu = feed("tu", vec![trip_update_entity("E1", "T1", 30)]);
    let vp = feed("vp", vec![vehicle_entity("V1", Some(trip(Some("T1"))))]);
    let (_, merged) = merge_feeds(&tu, &vp);
    assert!(merged.is_empty());
}

fn raw_envelope(entity: Vec<RawEntity>) -> RawEnvelope {
    RawEnvelope {
        status: "OK".to_string(),
        response: RawResponse {
            header: RawHeader { gtfs_realtime_version: "2.0".to_string(), incrementality: None, timestamp: None },
            entity,
        },
        error: None,
    }
}

fn raw_vehicle(id: &str, trip_id: &str, bearing: BearingWire) -> RawEntity {
    RawEntity {
        id: id.to_string(),
        trip_update: None,
        vehicle: Some(RawVehiclePosition {
            trip: Some(at_api::wire::RawTripDescriptor {
                trip_id: Some(trip_id.to_string()),
                route_id: None,
                direction_id: None,
                start_time: None,
                start_date: None,
                schedule_relationship: None,
            }),
            vehicle: None,
            position: Some(RawPosition { latitude: 0, longitude: 0, bearing, odometer: None, speed: None }),
            current_stop_sequence: None,
            stop_id: None,
            current_status: None,
            timestamp: None,
            congestion_level: None,
            occupancy_status: None,
        }),
        is_deleted: None,
    }
}

#[test]
fn decode_and_merge_end_to_end() {
    let tu = raw_envelope(vec![RawEntity { id: "T1".to_string(), trip_update: None, vehicle: None, is_deleted: None }]);
    let vp = raw_envelope(vec![raw_vehicle("V1", "T1", BearingWire::Text(Some(7.0f32.to_bits())))]);
    let (h, merged) = decode_and_merge(&tu, &vp).unwrap();
    assert_eq!(h.incrementality, Incrementality::FullDataset);
    assert_eq!(merged.len(), 1);
    assert_eq!(
        merged[0].vehicle.as_ref().unwrap().position.unwrap().bearing,
        Some(Bearing::Float(7.0f32.to_bits()))
    );
}

#[test]
fn decode_and_merge_reports_vehicle_feed_error() {
    let tu = raw_envelope(vec![]);
    let vp = raw_envelope(vec![raw_vehicle("V1", "T1", BearingWire::Text(None))]);
    assert_eq!(
        decode_and_merge(&tu, &vp).unwrap_err(),
        at_api::codes::DecodeError::BearingNotNumeric
    );
}

#[test]
fn join_uses_bare_separator() {
    assert_eq!(join(&vec!["a", "b", "c"], ","), "a,b,c");
    assert_eq!(join(&vec!["a"], ","), "a");
    assert_eq!(join(&vec![], ","), "");
}

#[test]
fn build_query_formats_pairs() {
    let params = vec![("tripid".to_string(), "1,2".to_string()), ("vehicleid".to_string(), "9".to_string())];
    assert_eq!(build_query("http://x/y".to_string(), &params), "http://x/y?tripid=1,2&vehicleid=9");
    assert_eq!(build_query("http://x/y".to_string(), &vec![]), "http://x/y");
}

#[test]
fn realtime_url_with_and_without_filters() {
    assert_eq!(
        realtime_url(TRIP_UPDATES_PATH, None, None),
        "https://api.at.govt.nz/v2/public/realtime/tripupdates"
    );
    let trips = vec!["t1", "t2"];
    let vehicles = vec!["v1"];
    assert_eq!(
        realtime_url(VEHICLE_POSITIONS_PATH, Some(&trips), Some(&vehicles)),
        "https://api.at.govt.nz/v2/public/realtime/vehiclelocations?tripid=t1,t2&vehicleid=v1"
    );
    assert_eq!(
        realtime_url("/x", None, Some(&vehicles)),
        "https://api.at.govt.nz/v2/x?vehicleid=v1"
    );
}
