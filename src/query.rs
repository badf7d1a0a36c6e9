//! The address of a combined realtime request. Ids are joined with bare
//! commas, which the endpoint requires and a generic query encoder would
//! escape.

use vstd::prelude::*;
use vstd::string::StringExecFns;

verus! {

/// The base address of the agency's API.
pub const BASE_API_URL: &'static str = "https://api.at.govt.nz/v2";

/// The path of the trip-updates feed under the base address.
pub const TRIP_UPDATES_PATH: &'static str = "/public/realtime/tripupdates";

/// The path of the vehicle-positions feed under the base address.
pub const VEHICLE_POSITIONS_PATH: &'static str = "/public/realtime/vehiclelocations";

/// `parts` with `sep` between each two.
pub open spec fn joined(parts: Seq<Seq<char>>, sep: Seq<char>) -> Seq<char>
    decreases parts.len(),
{
    if parts.len() == 0 {
        Seq::empty()
    } else if parts.len() == 1 {
        parts[0]
    } else {
        joined(parts.drop_last(), sep) + sep + parts.last()
    }
}

/// The query string of `params`: `?k=v&k=v...`, or nothing when there are
/// no parameters.
pub open spec fn query_suffix(params: Seq<(Seq<char>, Seq<char>)>) -> Seq<char> {
    if params.len() == 0 {
        Seq::empty()
    } else {
        seq!['?'] + joined(params.map_values(|p: (Seq<char>, Seq<char>)| p.0 + seq!['='] + p.1), seq!['&'])
    }
}

/// Parameter pairs as characters.
pub open spec fn params_view(params: Seq<(String, String)>) -> Seq<(Seq<char>, Seq<char>)> {
    params.map_values(|p: (String, String)| (p.0@, p.1@))
}

/// The ids of an optional list, as characters.
pub open spec fn ids_view(ids: Seq<&str>) -> Seq<Seq<char>> {
    ids.map_values(|s: &str| s@)
}

/// The parameters of a combined request: `tripid` when trip ids are given,
/// then `vehicleid` when vehicle ids are given, each a comma-joined list.
pub open spec fn realtime_params(
    trip_ids: Option<Seq<&str>>,
    vehicle_ids: Option<Seq<&str>>,
) -> Seq<(Seq<char>, Seq<char>)> {
    let trips = match trip_ids {
        Some(t) => seq![(seq!['t', 'r', 'i', 'p', 'i', 'd'], joined(ids_view(t), seq![',']))],
        None => Seq::empty(),
    };
    let vehicles = match vehicle_ids {
        Some(v) => seq![
            (seq!['v', 'e', 'h', 'i', 'c', 'l', 'e', 'i', 'd'], joined(ids_view(v), seq![','])),
        ],
        None => Seq::empty(),
    };
    trips + vehicles
}

/// `parts` joined with `sep`.
pub fn join(parts: &Vec<&str>, sep: &str) -> (r: String)
    ensures
        r@ == joined(ids_view(parts@), sep@),
{
    let mut out = String::new();
    let mut i: usize = 0;
    while i < parts.len()
        invariant
            i <= parts@.len(),
            out@ == joined(ids_view(parts@.take(i as int)), sep@),
        decreases parts@.len() - i,
    {
        let ghost next = parts@.take(i as int + 1);
        assert(ids_view(next).drop_last() =~= ids_view(parts@.take(i as int)));
        if i > 0 {
            out.append(sep);
        } else {
            assert(ids_view(next) =~= seq![parts@[0]@]);
        }
        out.append(parts[i]);
        i = i + 1;
    }
    assert(parts@.take(parts@.len() as int) =~= parts@);
    out
}

/// Appends the query string of `params` to `url`.
pub fn build_query(url: String, params: &Vec<(String, String)>) -> (r: String)
    ensures
        r@ == url@ + query_suffix(params_view(params@)),
{
    assert(params_view(params@).map_values(|p: (Seq<char>, Seq<char>)| p.0 + seq!['='] + p.1)
        =~= params@.map_values(|p: (String, String)| p.0@ + seq!['='] + p.1@));
    let ghost items = params@.map_values(|p: (String, String)| p.0@ + seq!['='] + p.1@);
    let mut out = url;
    if params.len() == 0 {
        return out;
    }
    proof {
        reveal_strlit("?");
        reveal_strlit("=");
        reveal_strlit("&");
    }
    out.append("?");
    assert("?"@ =~= seq!['?']);
    assert(items.take(0) =~= Seq::<Seq<char>>::empty());
    let mut i: usize = 0;
    while i < params.len()
        invariant
            i <= params@.len(),
            params@.len() > 0,
            items == params@.map_values(|p: (String, String)| p.0@ + seq!['='] + p.1@),
            out@ == url@ + seq!['?'] + joined(items.take(i as int), seq!['&']),
        decreases params@.len() - i,
    {
        assert(items.take(i as int + 1).drop_last() =~= items.take(i as int));
        let ghost before = out@;
        if i > 0 {
            out.append("&");
        } else {
            assert(items.take(1) =~= seq![items[0]]);
        }
        let (k, v) = &params[i];
        out.append(k.as_str());
        out.append("=");
        out.append(v.as_str());
        assert(items[i as int] == k@ + seq!['='] + v@);
        assert(items.take(i as int + 1).last() == items[i as int]);
        proof {
            reveal_strlit("=");
            reveal_strlit("&");
        }
        assert("="@ =~= seq!['=']);
        assert("&"@ =~= seq!['&']);
        assert(out@ =~= url@ + seq!['?'] + joined(items.take(i as int + 1), seq!['&']));
        i = i + 1;
    }
    assert(items.take(params@.len() as int) =~= items);
    out
}

/// The address of a request to the feed at `path` for the given trips and
/// vehicles; with neither, every vehicle is asked for.
pub fn realtime_url(path: &str, trip_ids: Option<&Vec<&str>>, vehicle_ids: Option<&Vec<&str>>) -> (r: String)
    ensures
        r@ == BASE_API_URL@ + path@ + query_suffix(
            realtime_params(
                match trip_ids {
                    Some(t) => Some(t@),
                    None => None,
                },
                match vehicle_ids {
                    Some(v) => Some(v@),
                    None => None,
                },
            ),
        ),
{
    let mut params: Vec<(String, String)> = Vec::new();
    proof {
        reveal_strlit("tripid");
        reveal_strlit("vehicleid");
        reveal_strlit(",");
    }
    if let Some(trips) = trip_ids {
        params.push((String::from_str("tripid"), join(trips, ",")));
    }
    if let Some(vehicles) = vehicle_ids {
        params.push((String::from_str("vehicleid"), join(vehicles, ",")));
    }
    let ghost want = realtime_params(
        match trip_ids {
            Some(t) => Some(t@),
            None => None,
        },
        match vehicle_ids {
            Some(v) => Some(v@),
            None => None,
        },
    );
    assert("tripid"@ =~= seq!['t', 'r', 'i', 'p', 'i', 'd']);
    assert("vehicleid"@ =~= seq!['v', 'e', 'h', 'i', 'c', 'l', 'e', 'i', 'd']);
    assert(","@ =~= seq![',']);
    assert(params_view(params@) =~= want);
    let mut url = String::from_str(BASE_API_URL);
    url.append(path);
    build_query(url, &params)
}

} // verus!
