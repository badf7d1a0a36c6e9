//! Joining the trip-updates feed with the vehicle-positions feed by trip.

use vstd::prelude::*;
use crate::codes::DecodeError;
use crate::envelope::{ATResponse, Header};
use crate::wire::{decode_envelope, decodes_to, envelope_valid, RawEnvelope};
use crate::model::{Entity, TripUpdate};

verus! {

/// The last entity of `feed` whose id is `key`: later entities win.
pub open spec fn last_with_id(feed: Seq<Entity>, key: Seq<char>) -> Option<Entity>
    decreases feed.len(),
{
    if feed.len() == 0 {
        None
    } else if feed.last().id@ == key {
        Some(feed.last())
    } else {
        last_with_id(feed.drop_last(), key)
    }
}

/// The trip id that a vehicle-position entity links to, if every link of
/// vehicle, trip and trip id is present.
pub open spec fn vehicle_trip_id(e: Entity) -> Option<String> {
    match e.vehicle {
        Some(vp) => match vp.trip {
            Some(t) => t.trip_id,
            None => None,
        },
        None => None,
    }
}

/// `e` with its trip update replaced by `tu`.
pub open spec fn with_trip_update(e: Entity, tu: Option<TripUpdate>) -> Entity {
    Entity { trip_update: tu, ..e }
}

/// The merged form of one vehicle-position entity, or `None` when it is
/// dropped: it has no trip id, or no trip-updates entity has that id.
pub open spec fn merge_one(trip_updates: Seq<Entity>, e: Entity) -> Option<Entity> {
    match vehicle_trip_id(e) {
        Some(t) => match last_with_id(trip_updates, t@) {
            Some(m) => Some(with_trip_update(e, m.trip_update)),
            None => None,
        },
        None => None,
    }
}

/// The merged entities, one for each vehicle-position entity that is kept,
/// in the order of the vehicle-positions feed.
pub open spec fn merged(trip_updates: Seq<Entity>, vehicles: Seq<Entity>) -> Seq<Entity>
    decreases vehicles.len(),
{
    if vehicles.len() == 0 {
        Seq::empty()
    } else {
        let prev = merged(trip_updates, vehicles.drop_last());
        match merge_one(trip_updates, vehicles.last()) {
            Some(m) => prev.push(m),
            None => prev,
        }
    }
}

/// The index of the last entity of `feed` whose id is `key`.
fn find_last_by_id(feed: &Vec<Entity>, key: &String) -> (r: Option<usize>)
    ensures
        match r {
            Some(i) => i < feed@.len() && last_with_id(feed@, key@) == Some(feed@[i as int]),
            None => last_with_id(feed@, key@) is None,
        },
{
    let mut i: usize = feed.len();
    assert(feed@.take(i as int) =~= feed@);
    while i > 0
        invariant
            i <= feed@.len(),
            last_with_id(feed@, key@) == last_with_id(feed@.take(i as int), key@),
        decreases i,
    {
        let k: usize = i - 1;
        assert(feed@.take(i as int).drop_last() =~= feed@.take(k as int));
        if feed[k].id == *key {
            return Some(k);
        }
        i = k;
    }
    None
}

fn vehicle_trip_id_of(e: &Entity) -> (r: Option<&String>)
    ensures
        match r {
            Some(t) => vehicle_trip_id(*e) == Some(*t),
            None => vehicle_trip_id(*e) is None,
        },
{
    match &e.vehicle {
        Some(vp) => match &vp.trip {
            Some(t) => match &t.trip_id {
                Some(id) => Some(id),
                None => None,
            },
            None => None,
        },
        None => None,
    }
}

/// Joins the two feeds: each vehicle-position entity whose trip id names an
/// entity of the trip-updates feed is copied with that entity's trip update
/// in place of its own; the others are dropped. Returns the header of the
/// trip-updates feed and the merged entities. The inputs are left unchanged.
pub fn merge_feeds(trip_updates: &ATResponse, vehicle_positions: &ATResponse) -> (r: (Header, Vec<Entity>))
    ensures
        r.0 == trip_updates.response.header,
        r.1@ == merged(trip_updates.response.entity@, vehicle_positions.response.entity@),
{
    let index = &trip_updates.response.entity;
    let vehicles = &vehicle_positions.response.entity;
    let mut out: Vec<Entity> = Vec::new();
    let mut i: usize = 0;
    while i < vehicles.len()
        invariant
            i <= vehicles@.len(),
            out@ == merged(index@, vehicles@.take(i as int)),
        decreases vehicles@.len() - i,
    {
        let ghost prefix = vehicles@.take(i as int + 1);
        assert(prefix.drop_last() =~= vehicles@.take(i as int));
        assert(prefix.last() == vehicles@[i as int]);
        let e = &vehicles[i];
        if let Some(trip_id) = vehicle_trip_id_of(e) {
            if let Some(k) = find_last_by_id(index, trip_id) {
                let trip_update = match &index[k].trip_update {
                    Some(tu) => Some(tu.clone()),
                    None => None,
                };
                let mut m = e.clone();
                m.trip_update = trip_update;
                out.push(m);
            }
        }
        i = i + 1;
    }
    assert(vehicles@.take(vehicles@.len() as int) =~= vehicles@);
    (trip_updates.response.header.clone(), out)
}

/// Decodes both feeds and merges them: fails with the decode error of the
/// trip-updates feed, else of the vehicle-positions feed, else returns what
/// [`merge_feeds`] returns for the decoded feeds.
pub fn decode_and_merge(trip_updates: &RawEnvelope, vehicle_positions: &RawEnvelope) -> (r: Result<
    (Header, Vec<Entity>),
    DecodeError,
>)
    ensures
        r is Ok <==> envelope_valid(*trip_updates) && envelope_valid(*vehicle_positions),
        forall|t: Result<ATResponse, DecodeError>| #[trigger]
            decodes_to(*trip_updates, t) && t is Err ==> r == Err::<(Header, Vec<Entity>), DecodeError>(
                t->Err_0,
            ),
        forall|t: Result<ATResponse, DecodeError>, v: Result<ATResponse, DecodeError>|
            #[trigger] decodes_to(*trip_updates, t) && #[trigger] decodes_to(*vehicle_positions, v)
                && t is Ok ==> match v {
                Err(e) => r == Err::<(Header, Vec<Entity>), DecodeError>(e),
                Ok(vd) => r is Ok && r->Ok_0.0 == t->Ok_0.response.header && r->Ok_0.1@ == merged(
                    t->Ok_0.response.entity@,
                    vd.response.entity@,
                ),
            },
{
    let t = decode_envelope(trip_updates);
    let t = match t {
        Ok(t) => t,
        Err(e) => return Err(e),
    };
    let v = match decode_envelope(vehicle_positions) {
        Ok(v) => v,
        Err(e) => return Err(e),
    };
    Ok(merge_feeds(&t, &v))
}

/// Each merged entity is the merged form of a vehicle-position entity with
/// the same id, and each vehicle-position entity that is kept has its merged
/// form in the output.
pub proof fn lemma_merged_members(trip_updates: Seq<Entity>, vehicles: Seq<Entity>)
    ensures
        forall|k: int|
            #![trigger merged(trip_updates, vehicles)[k]]
            0 <= k < merged(trip_updates, vehicles).len() ==> exists|i: int|
                0 <= i < vehicles.len() && #[trigger] merge_one(trip_updates, vehicles[i]) == Some(
                    merged(trip_updates, vehicles)[k],
                ) && merged(trip_updates, vehicles)[k].id == vehicles[i].id,
        forall|i: int|
            0 <= i < vehicles.len() && (#[trigger] merge_one(trip_updates, vehicles[i])) is Some
                ==> merged(trip_updates, vehicles).contains(
                merge_one(trip_updates, vehicles[i])->Some_0,
            ),
    decreases vehicles.len(),
{
    if vehicles.len() > 0 {
        let rest = vehicles.drop_last();
        lemma_merged_members(trip_updates, rest);
        let prev = merged(trip_updates, rest);
        let out = merged(trip_updates, vehicles);
        let n = vehicles.len() - 1;
        assert forall|k: int| #![trigger out[k]] 0 <= k < out.len() implies exists|i: int|
            0 <= i < vehicles.len() && #[trigger] merge_one(trip_updates, vehicles[i]) == Some(out[k])
                && out[k].id == vehicles[i].id by {
            if k < prev.len() {
                let i = choose|i: int|
                    0 <= i < rest.len() && #[trigger] merge_one(trip_updates, rest[i]) == Some(prev[k])
                        && prev[k].id == rest[i].id;
                assert(rest[i] == vehicles[i]);
            } else {
                assert(merge_one(trip_updates, vehicles[n]) == Some(out[k]));
            }
        }
        assert forall|i: int|
            0 <= i < vehicles.len() && (#[trigger] merge_one(trip_updates, vehicles[i])) is Some
                implies out.contains(merge_one(trip_updates, vehicles[i])->Some_0) by {
            let m = merge_one(trip_updates, vehicles[i])->Some_0;
            if i < n {
                assert(rest[i] == vehicles[i]);
                let k = choose|k: int| 0 <= k < prev.len() && prev[k] == m;
                assert(out[k] == m);
            } else {
                assert(out[out.len() - 1] == m);
            }
        }
    }
}

/// Only vehicle positions that can be joined reach the output: where no
/// vehicle-position entity with id `id` carries a trip id that names an
/// entity of the trip-updates feed, no merged entity has id `id`. This
/// covers vehicles without a trip descriptor or trip id, vehicles whose trip
/// id matches nothing, and trip updates that no vehicle position names.
pub proof fn lemma_merge_keeps_only_linked(
    trip_updates: Seq<Entity>,
    vehicles: Seq<Entity>,
    id: Seq<char>,
)
    requires
        forall|i: int|
            0 <= i < vehicles.len() && vehicles[i].id@ == id ==> (vehicle_trip_id(vehicles[i]) is None
                || last_with_id(trip_updates, vehicle_trip_id(vehicles[i])->Some_0@) is None),
    ensures
        forall|k: int|
            0 <= k < merged(trip_updates, vehicles).len() ==> (#[trigger] merged(
                trip_updates,
                vehicles,
            )[k]).id@ != id,
{
    lemma_merged_members(trip_updates, vehicles);
    let out = merged(trip_updates, vehicles);
    assert forall|k: int| 0 <= k < out.len() implies (#[trigger] out[k]).id@ != id by {
        let i = choose|i: int|
            0 <= i < vehicles.len() && #[trigger] merge_one(trip_updates, vehicles[i]) == Some(out[k])
                && out[k].id == vehicles[i].id;
    }
}

/// On duplicate ids in the trip-updates feed the later entity wins: a
/// vehicle position linked to `key` takes the trip update of the last
/// entity whose id is `key`.
pub proof fn lemma_last_write_wins(trip_updates: Seq<Entity>, i: int, e: Entity)
    requires
        0 <= i < trip_updates.len(),
        forall|j: int| i < j < trip_updates.len() ==> trip_updates[j].id@ != trip_updates[i].id@,
        vehicle_trip_id(e) is Some,
        vehicle_trip_id(e)->Some_0@ == trip_updates[i].id@,
    ensures
        last_with_id(trip_updates, trip_updates[i].id@) == Some(trip_updates[i]),
        merge_one(trip_updates, e) == Some(with_trip_update(e, trip_updates[i].trip_update)),
    decreases trip_updates.len(),
{
    if i < trip_updates.len() - 1 {
        let rest = trip_updates.drop_last();
        assert(rest[i] == trip_updates[i]);
        assert forall|j: int| i < j < rest.len() implies rest[j].id@ != rest[i].id@ by {
            assert(rest[j] == trip_updates[j]);
        }
        lemma_last_write_wins(rest, i, e);
    }
}

} // verus!
