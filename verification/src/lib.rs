//! Resource management for a resource based economy: resources, their
//! parameters, the locations that hold them and the transformations that
//! move and turn resources into other resources.
//!
//! This crate holds the decisions and bookkeeping of the application; the
//! database and the web front end stand outside it and hand it plain values.
use vstd::prelude::*;

pub mod locations;
pub mod parameters;
pub mod resources;
pub mod transforms;

verus! {

/// Position in a cache vector of the row whose database id is `id`:
/// database ids start at 1, vector positions at 0.
pub fn match_id(id: u64) -> (index: usize)
    requires
        1 <= id <= usize::MAX,
    ensures
        index == id - 1,
{
    id as usize - 1
}

/// A kind of resource, as listed in the `resource_type` table.
pub struct ResourceType {
    pub id: u64,
    pub name: String,
}

impl ResourceType {
    pub fn new(id: u64, name: String) -> (r: Self)
        ensures
            r.id == id,
            r.name@ == name@,
    {
        ResourceType { id, name }
    }
}

/// A kind of transformation, as listed in the `transform_type` table.
pub struct TransformType {
    pub id: u64,
    pub name: String,
}

impl TransformType {
    pub fn new(id: u64, name: String) -> (r: Self)
        ensures
            r.id == id,
            r.name@ == name@,
    {
        TransformType { id, name }
    }
}

/// A physical quantity and the unit it is measured in, as listed in the
/// `quantity` table.
pub struct Quantity {
    pub id: u64,
    pub name: String,
    pub unit: String,
}

impl Quantity {
    pub fn new(id: u64, name: String, unit: String) -> (r: Self)
        ensures
            r.id == id,
            r.name@ == name@,
            r.unit@ == unit@,
    {
        Quantity { id, name, unit }
    }
}

/// The lookup tables that the application reads once at start-up and keeps
/// in memory: quantities, resource types and transformation types.
///
/// A table row with database id `n` is looked up at position `n - 1`
/// (see [`match_id`]).
pub struct Catalog {
    pub quantities: Vec<Quantity>,
    pub resource_types: Vec<ResourceType>,
    pub transform_types: Vec<TransformType>,
}

impl Catalog {
    /// Whether `unit_id` names a unit the catalog can resolve: 0 stands for
    /// "no unit", any other id must have a row in the quantity table.
    pub open spec fn has_unit(&self, unit_id: u64) -> bool {
        unit_id == 0 || unit_id <= self.quantities@.len()
    }

    /// The unit text shown for `unit_id`: empty for 0, else the unit of the
    /// quantity at position `unit_id - 1`.
    pub open spec fn unit_text(&self, unit_id: u64) -> Seq<char> {
        if unit_id == 0 {
            Seq::empty()
        } else {
            self.quantities@[unit_id - 1].unit@
        }
    }

    /// Whether `type_id` has a row in the transformation type table.
    pub open spec fn has_transform_type(&self, type_id: u64) -> bool {
        1 <= type_id <= self.transform_types@.len()
    }

    pub open spec fn transform_type_text(&self, type_id: u64) -> Seq<char> {
        self.transform_types@[type_id - 1].name@
    }

    /// Whether `type_id` has a row in the resource type table.
    pub open spec fn has_res_type(&self, type_id: u64) -> bool {
        1 <= type_id <= self.resource_types@.len()
    }

    pub open spec fn res_type_text(&self, type_id: u64) -> Seq<char> {
        self.resource_types@[type_id - 1].name@
    }

    /// Whether every table lists its rows by id, 1, 2, 3, ... in order.
    pub open spec fn numbered_in_order(&self) -> bool {
        &&& forall|i: int| 0 <= i < self.quantities@.len() ==> #[trigger] self.quantities@[i].id == i + 1
        &&& forall|i: int|
            0 <= i < self.resource_types@.len() ==> #[trigger] self.resource_types@[i].id == i + 1
        &&& forall|i: int|
            0 <= i < self.transform_types@.len() ==> #[trigger] self.transform_types@[i].id == i + 1
    }

    pub fn new(
        quantities: Vec<Quantity>,
        resource_types: Vec<ResourceType>,
        transform_types: Vec<TransformType>,
    ) -> (c: Self)
        ensures
            c.quantities@ == quantities@,
            c.resource_types@ == resource_types@,
            c.transform_types@ == transform_types@,
    {
        Catalog { quantities, resource_types, transform_types }
    }

    pub fn get_res_types(&self) -> (types: &Vec<ResourceType>)
        ensures
            types@ == self.resource_types@,
    {
        &self.resource_types
    }

    pub fn get_quantities(&self) -> (quantities: &Vec<Quantity>)
        ensures
            quantities@ == self.quantities@,
    {
        &self.quantities
    }

    pub fn get_transform_types(&self) -> (types: &Vec<TransformType>)
        ensures
            types@ == self.transform_types@,
    {
        &self.transform_types
    }

    /// Whether `unit_id` names a unit the catalog can resolve.
    pub fn holds_unit(&self, unit_id: u64) -> (b: bool)
        ensures
            b == self.has_unit(unit_id),
            unit_id == 0 ==> b,
    {
        unit_id == 0 || unit_id <= self.quantities.len() as u64
    }

    /// Whether `type_id` has a row in the transformation type table.
    pub fn holds_transform_type(&self, type_id: u64) -> (b: bool)
        ensures
            b == self.has_transform_type(type_id),
    {
        1 <= type_id && type_id <= self.transform_types.len() as u64
    }

    /// Whether `type_id` has a row in the resource type table.
    pub fn holds_res_type(&self, type_id: u64) -> (b: bool)
        ensures
            b == self.has_res_type(type_id),
    {
        1 <= type_id && type_id <= self.resource_types.len() as u64
    }

    /// The unit text for `unit_id`: empty for 0, else the unit of that
    /// quantity.
    pub fn unit<'a>(&'a self, unit_id: u64) -> (unit: &'a str)
        requires
            self.has_unit(unit_id),
        ensures
            unit@ == self.unit_text(unit_id),
    {
        if unit_id == 0 {
            proof {
                reveal_strlit("");
            }
            ""
        } else {
            assert(self.quantities@.len() == self.quantities.len());
            let q = &self.quantities[match_id(unit_id)];
            q.unit.as_str()
        }
    }

    /// The name of the transformation type `type_id`.
    pub fn transform_type_name<'a>(&'a self, type_id: u64) -> (name: &'a str)
        requires
            self.has_transform_type(type_id),
        ensures
            name@ == self.transform_type_text(type_id),
    {
        assert(self.transform_types@.len() == self.transform_types.len());
        let t = &self.transform_types[match_id(type_id)];
        t.name.as_str()
    }

    /// The name of the resource type `type_id`.
    pub fn res_type_name<'a>(&'a self, type_id: u64) -> (name: &'a str)
        requires
            self.has_res_type(type_id),
        ensures
            name@ == self.res_type_text(type_id),
    {
        assert(self.resource_types@.len() == self.resource_types.len());
        let t = &self.resource_types[match_id(type_id)];
        t.name.as_str()
    }
}

/// Looking a row up by position `id - 1` finds the row whose id is `id`,
/// whenever the tables list their rows by id in order.
pub proof fn lemma_lookup_by_id(catalog: Catalog, id: u64)
    requires
        catalog.numbered_in_order(),
    ensures
        forall|i: int|
            0 <= i < catalog.quantities@.len() && #[trigger] catalog.quantities@[i].id == id
                ==> catalog.has_unit(id) && catalog.unit_text(id) == catalog.quantities@[i].unit@,
        forall|i: int|
            0 <= i < catalog.resource_types@.len() && #[trigger] catalog.resource_types@[i].id == id
                ==> catalog.has_res_type(id) && catalog.res_type_text(id)
                == catalog.resource_types@[i].name@,
        forall|i: int|
            0 <= i < catalog.transform_types@.len() && #[trigger] catalog.transform_types@[i].id
                == id ==> catalog.has_transform_type(id) && catalog.transform_type_text(id)
                == catalog.transform_types@[i].name@,
{
}

/// Unit 0 stands for no unit: every catalog resolves it, to the empty text.
/// Any other unit, and any resource or transformation type, resolves exactly
/// when the catalog has a row with that id, whenever the tables list their
/// rows by id in order; type 0 never resolves.
pub proof fn lemma_unit_resolvable(catalog: Catalog, id: u64)
    ensures
        catalog.has_unit(0),
        catalog.unit_text(0) == Seq::<char>::empty(),
        !catalog.has_res_type(0),
        !catalog.has_transform_type(0),
        catalog.numbered_in_order() ==> (catalog.has_unit(id) <==> (id == 0 || exists|i: int|
            0 <= i < catalog.quantities@.len() && #[trigger] catalog.quantities@[i].id == id)),
        catalog.numbered_in_order() ==> (catalog.has_res_type(id) <==> (exists|i: int|
            0 <= i < catalog.resource_types@.len() && #[trigger] catalog.resource_types@[i].id == id)),
        catalog.numbered_in_order() ==> (catalog.has_transform_type(id) <==> (exists|i: int|
            0 <= i < catalog.transform_types@.len() && #[trigger] catalog.transform_types@[i].id == id)),
{
    if catalog.numbered_in_order() && id != 0 {
        let i = id - 1;
        if catalog.has_unit(id) {
            assert(catalog.quantities@[i].id == id);
        }
        if catalog.has_res_type(id) {
            assert(catalog.resource_types@[i].id == id);
        }
        if catalog.has_transform_type(id) {
            assert(catalog.transform_types@[i].id == id);
        }
    }
}

/// What collecting a sequence of decoded rows gives: every row in order when
/// none failed, else the message of the first failure.
pub open spec fn collect_rows<T>(items: Seq<Result<T, String>>) -> Result<Seq<T>, Seq<char>>
    decreases items.len(),
{
    if items.len() == 0 {
        Ok(Seq::empty())
    } else {
        collect_step(collect_rows(items.drop_last()), items.last())
    }
}

/// One step of row collection: a failure sticks, a new failure stops the
/// collection, a new row is appended.
pub open spec fn collect_step<T>(acc: Result<Seq<T>, Seq<char>>, item: Result<T, String>) -> Result<
    Seq<T>,
    Seq<char>,
> {
    match acc {
        Err(e) => Err(e),
        Ok(rows) => match item {
            Ok(v) => Ok(rows.push(v)),
            Err(e) => Err(e@),
        },
    }
}

/// Gathers the rows of a query result one at a time and stops at the first
/// row that failed to arrive or to decode.
pub struct RowCollector<T> {
    rows: Vec<T>,
    error: Option<String>,
}

impl<T> RowCollector<T> {
    /// The rows gathered so far, or the message of the failure that stopped
    /// the collection.
    pub closed spec fn outcome(&self) -> Result<Seq<T>, Seq<char>> {
        match self.error {
            Some(e) => Err(e@),
            None => Ok(self.rows@),
        }
    }

    pub fn new() -> (c: Self)
        ensures
            c.outcome() == Ok::<Seq<T>, Seq<char>>(Seq::empty()),
    {
        RowCollector { rows: Vec::new(), error: None }
    }

    /// Takes the next row (or the failure to get it) and says whether to
    /// stop reading.
    pub fn accept(&mut self, item: Result<T, String>) -> (stop: bool)
        ensures
            final(self).outcome() == collect_step(old(self).outcome(), item),
            stop == final(self).outcome() is Err,
    {
        if self.error.is_none() {
            match item {
                Ok(v) => {
                    self.rows.push(v);
                },
                Err(e) => {
                    self.error = Some(e);
                },
            }
        }
        self.error.is_some()
    }

    /// The gathered rows, or the first failure.
    pub fn finish(self) -> (r: Result<Vec<T>, String>)
        ensures
            match r {
                Ok(rows) => self.outcome() == Ok::<Seq<T>, Seq<char>>(rows@),
                Err(e) => self.outcome() == Err::<Seq<T>, Seq<char>>(e@),
            },
    {
        match self.error {
            Some(e) => Err(e),
            None => Ok(self.rows),
        }
    }
}

/// Row collection keeps every row, in order, when no row failed, and reports
/// the first failure otherwise.
pub proof fn lemma_collect_rows<T>(items: Seq<Result<T, String>>)
    ensures
        (forall|i: int| 0 <= i < items.len() ==> #[trigger] items[i] is Ok) ==> collect_rows(items)
            == Ok::<Seq<T>, Seq<char>>(items.map_values(|r: Result<T, String>| r->Ok_0)),
        forall|j: int|
            0 <= j < items.len() && #[trigger] items[j] is Err && (forall|i: int|
                0 <= i < j ==> #[trigger] items[i] is Ok) ==> collect_rows(items) == Err::<
                Seq<T>,
                Seq<char>,
            >(items[j]->Err_0@),
    decreases items.len(),
{
    let f = |r: Result<T, String>| r->Ok_0;
    if items.len() == 0 {
        assert(items.map_values(f) =~= Seq::<T>::empty());
    } else {
        let init = items.drop_last();
        let n = items.len() - 1;
        lemma_collect_rows(init);
        assert forall|i: int| 0 <= i < init.len() implies #[trigger] init[i] == items[i] by {}
        if forall|i: int| 0 <= i < items.len() ==> #[trigger] items[i] is Ok {
            assert forall|i: int| 0 <= i < init.len() implies #[trigger] init[i] is Ok by {
                assert(items[i] is Ok);
            }
            assert(items[n] is Ok);
            assert(items.map_values(f) =~= init.map_values(f).push(items[n]->Ok_0));
        }
        assert forall|j: int|
            0 <= j < items.len() && #[trigger] items[j] is Err && (forall|i: int|
                0 <= i < j ==> #[trigger] items[i] is Ok) implies collect_rows(items) == Err::<
            Seq<T>,
            Seq<char>,
        >(items[j]->Err_0@) by {
            if j < n {
                assert(init[j] == items[j]);
                assert forall|i: int| 0 <= i < j implies #[trigger] init[i] is Ok by {
                    assert(init[i] == items[i]);
                }
            } else {
                assert forall|i: int| 0 <= i < init.len() implies #[trigger] init[i] is Ok by {
                    assert(init[i] == items[i]);
                }
            }
        }
    }
}

} // verus!
