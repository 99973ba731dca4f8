//! Locations of resources: how much of a resource lies where, within which
//! radius and in which unit. `N` is the type of the numbers (amounts and
//! coordinates) that the database stores.
use vstd::prelude::*;

use crate::Catalog;

pub mod transport;

verus! {

/// A point on the map where resources can lie.
pub struct Coordinates<N> {
    pub id: u64,
    pub lat: N,
    pub lon: N,
}

impl<N> Coordinates<N> {
    pub fn new(id: u64, lat: N, lon: N) -> (c: Self)
        ensures
            c.id == id,
            c.lat == lat,
            c.lon == lon,
    {
        Coordinates { id, lat, lon }
    }
}

/// A resource location with the names it is shown with: the resource's
/// name and the unit of the amount.
pub struct ResLocationResolved<'a, N> {
    pub id: u64,
    pub amount: N,
    pub radius: u64,
    pub lat: N,
    pub lon: N,
    pub unit_id: u64,
    pub unit: &'a str,
    pub res_name: String,
}

impl<'a, N> ResLocationResolved<'a, N> {
    /// A resource location read from the database; its unit text is empty
    /// until it is resolved from the catalog.
    pub fn new(
        id: u64,
        amount: N,
        radius: u64,
        lat: N,
        lon: N,
        unit_id: u64,
        res_name: String,
    ) -> (l: Self)
        ensures
            l.id == id,
            l.amount == amount,
            l.radius == radius,
            l.lat == lat,
            l.lon == lon,
            l.unit_id == unit_id,
            l.unit@ == Seq::<char>::empty(),
            l.res_name == res_name,
    {
        proof {
            reveal_strlit("");
        }
        ResLocationResolved { id, amount, radius, lat, lon, unit_id, unit: "", res_name }
    }

    /// Whether `self` is `row` with its unit text resolved from
    /// `catalog`.
    pub open spec fn resolved_from(self, row: ResLocationResolved<'a, N>, catalog: Catalog) -> bool {
        &&& self.id == row.id
        &&& self.amount == row.amount
        &&& self.radius == row.radius
        &&& self.lat == row.lat
        &&& self.lon == row.lon
        &&& self.unit_id == row.unit_id
        &&& self.res_name == row.res_name
        &&& self.unit@ == catalog.unit_text(row.unit_id)
    }

    /// Sets the unit text to the one the catalog holds for `unit_id`.
    pub fn set_unit_from_cache(&mut self, catalog: &'a Catalog)
        requires
            catalog.has_unit(old(self).unit_id),
        ensures
            final(self).resolved_from(*old(self), *catalog),
    {
        self.unit = catalog.unit(self.unit_id);
    }
}

/// A resource location as listed for one resource.
pub struct ResLocationBasic<N> {
    pub id: u64,
    pub amount: N,
    pub lat: N,
    pub lon: N,
    pub radius: u64,
    pub unit: String,
}

impl<N> ResLocationBasic<N> {
    pub fn new(id: u64, amount: N, radius: u64, lat: N, lon: N, unit: String) -> (l: Self)
        ensures
            l.id == id,
            l.amount == amount,
            l.radius == radius,
            l.lat == lat,
            l.lon == lon,
            l.unit == unit,
    {
        ResLocationBasic { id, amount, lat, lon, radius, unit }
    }
}

/// The first of the rows that the lookup of one resource location returned,
/// with its unit text resolved.
pub fn get_resource_location_info<'a, N>(
    fetched: Vec<ResLocationResolved<'a, N>>,
    catalog: &'a Catalog,
) -> (location: ResLocationResolved<'a, N>)
    requires
        fetched@.len() > 0,
        catalog.has_unit(fetched@[0].unit_id),
    ensures
        location.resolved_from(fetched@[0], *catalog),
{
    let mut fetched = fetched;
    let mut location = fetched.remove(0);
    location.set_unit_from_cache(catalog);
    location
}

/// Resolves the unit text of every resource location read from the
/// database.
pub fn get_all_resource_locations<'a, N>(
    fetched: Vec<ResLocationResolved<'a, N>>,
    catalog: &'a Catalog,
) -> (locations: Vec<ResLocationResolved<'a, N>>)
    requires
        forall|i: int| 0 <= i < fetched@.len() ==> catalog.has_unit(#[trigger] fetched@[i].unit_id),
    ensures
        locations@.len() == fetched@.len(),
        forall|i: int|
            0 <= i < fetched@.len() ==> #[trigger] locations@[i].resolved_from(
                fetched@[i],
                *catalog,
            ),
{
    let mut locations = fetched;
    let n = locations.len();
    for i in 0..n
        invariant
            n == fetched@.len(),
            locations@.len() == n,
            forall|j: int| 0 <= j < n ==> catalog.has_unit(#[trigger] fetched@[j].unit_id),
            forall|j: int|
                0 <= j < i ==> #[trigger] locations@[j].resolved_from(fetched@[j], *catalog),
            forall|j: int| i <= j < n ==> #[trigger] locations@[j] == fetched@[j],
    {
        locations[i].set_unit_from_cache(catalog);
    }
    locations
}

} // verus!
