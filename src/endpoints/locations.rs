use vstd::prelude::*;

verus! {

/// A location, as the service sends it.
#[derive(Debug)]
pub struct LocationResponse {
    pub id: i32,
    pub archived: bool,
    pub building: Option<String>,
    pub long_name: String,
    pub name: String,
    pub room_name: String,
}

/// Represents a location.
#[derive(Debug)]
pub struct Location {
    /// The ID of the location.
    pub id: i32,
    /// Indicates whether the location is archived.
    pub archived: bool,
    /// The building associated with the location.
    pub building: Option<String>,
    /// The long name of the location.
    pub long_name: String,
    /// The name of the location.
    pub name: String,
    /// The room name of the location.
    pub room_name: String,
}

pub open spec fn location_of(l: LocationResponse) -> Location {
    Location {
        id: l.id,
        archived: l.archived,
        building: l.building,
        long_name: l.long_name,
        name: l.name,
        room_name: l.room_name,
    }
}

/// The locations of a response, in the order the service sent them.
pub fn locations_from_rows(rows: Vec<LocationResponse>) -> (r: Vec<Location>)
    ensures
        r@ == rows@.map_values(|l: LocationResponse| location_of(l)),
{
    let mut out: Vec<Location> = Vec::new();
    for l in it: rows.into_iter()
        invariant
            it.seq() == rows@,
            out@ == rows@.take(it.index() as int).map_values(
                |l: LocationResponse| location_of(l),
            ),
    {
        out.push(
            Location {
                id: l.id,
                archived: l.archived,
                building: l.building,
                long_name: l.long_name,
                name: l.name,
                room_name: l.room_name,
            },
        );
    }
    assert(rows@.take(rows@.len() as int) =~= rows@);
    out
}

} // verus!
