//! Resources: anything the economy keeps track of, each of some resource
//! type.
use vstd::prelude::*;

use crate::Catalog;

verus! {

/// A resource with the number of locations and parameters it has.
pub struct Resource {
    pub id: u64,
    pub name: String,
    pub type_id: u64,
    pub kind_name: String,
    pub locations: u64,
    pub parameters: u64,
}

impl Resource {
    pub fn new(
        id: u64,
        name: String,
        type_id: u64,
        kind_name: String,
        locations: u64,
        parameters: u64,
    ) -> (r: Self)
        ensures
            r.id == id,
            r.name == name,
            r.type_id == type_id,
            r.kind_name == kind_name,
            r.locations == locations,
            r.parameters == parameters,
    {
        Resource { id, name, type_id, kind_name, locations, parameters }
    }

    /// Sets the name of the resource's type to the one the catalog holds
    /// for `type_id`.
    pub fn set_type_from_cache(&mut self, catalog: &Catalog)
        requires
            catalog.has_res_type(old(self).type_id),
        ensures
            final(self).id == old(self).id,
            final(self).name == old(self).name,
            final(self).type_id == old(self).type_id,
            final(self).kind_name@ == catalog.res_type_text(old(self).type_id),
            final(self).locations == old(self).locations,
            final(self).parameters == old(self).parameters,
    {
        self.kind_name = catalog.res_type_name(self.type_id).to_owned();
    }
}

} // verus!
