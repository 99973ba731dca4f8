//! Parameters describe resources: a number with a unit, a text, or an amount
//! of another resource that the resource is made of.
use vstd::prelude::*;

use crate::Catalog;

verus! {

/// Parameter type of a plain number (measured in a unit).
pub const PARAM_TYPE_NUMBER: u64 = 1;

/// Parameter type of a dependency on another resource.
pub const PARAM_TYPE_RESOURCE: u64 = 3;

/// The value of a resource parameter. `N` is the type of the numbers that
/// the database stores.
pub enum Value<N> {
    Number(N),
    Text(String),
    Resource(N, String),
    Empty,
}

/// The value that the three value columns of a parameter row stand for: a
/// number alone, a text alone, or a number together with the resource it
/// refers to; any other combination is an empty value.
pub open spec fn column_value<N>(
    val_float: Option<N>,
    val_text: Option<String>,
    val_res: Option<String>,
) -> Value<N> {
    match (val_float, val_text, val_res) {
        (Some(x), None, None) => Value::Number(x),
        (None, Some(x), None) => Value::Text(x),
        (Some(x), None, Some(y)) => Value::Resource(x, y),
        _ => Value::Empty,
    }
}

impl<N> Value<N> {
    /// Reads a value from the three value columns of a parameter row.
    pub fn from_columns(val_float: Option<N>, val_text: Option<String>, val_res: Option<String>) -> (v:
        Self)
        ensures
            v == column_value(val_float, val_text, val_res),
    {
        match (val_float, val_text, val_res) {
            (Some(x), None, None) => Value::Number(x),
            (None, Some(x), None) => Value::Text(x),
            (Some(x), None, Some(y)) => Value::Resource(x, y),
            _ => Value::Empty,
        }
    }
}

/// How the value columns of a parameter row are read: a number alone is a
/// number, a text alone a text, a number with a resource a resource
/// dependency; no column, a text beside anything else, or a resource without
/// a number leaves the value empty.
pub proof fn lemma_value_columns<N>(x: N, t: String, r: String)
    ensures
        column_value(Some(x), None, None) == Value::<N>::Number(x),
        column_value::<N>(None, Some(t), None) == Value::<N>::Text(t),
        column_value(Some(x), None, Some(r)) == Value::<N>::Resource(x, r),
        column_value::<N>(None, None, None) == Value::<N>::Empty,
        column_value(Some(x), Some(t), None) == Value::<N>::Empty,
        column_value(Some(x), Some(t), Some(r)) == Value::<N>::Empty,
        column_value::<N>(None, Some(t), Some(r)) == Value::<N>::Empty,
        column_value::<N>(None, None, Some(r)) == Value::<N>::Empty,
{
}

/// A parameter as offered for a resource dependency: its id, the resource
/// name and the parameter name.
pub struct Parameter {
    pub id: u64,
    pub name: String,
    pub unit: String,
}

impl Parameter {
    pub fn new(id: u64, name: String, unit: String) -> (p: Self)
        ensures
            p.id == id,
            p.name@ == name@,
            p.unit@ == unit@,
    {
        Parameter { id, name, unit }
    }
}

/// A parameter definition with the unit it is measured in.
pub struct Parameter2<'a> {
    pub id: u64,
    pub name: String,
    pub type_id: String,
    pub unit_id: u64,
    pub unit: &'a str,
}

impl<'a> Parameter2<'a> {
    /// A parameter read from the database; its unit text is empty until it
    /// is resolved from the catalog.
    pub fn new(id: u64, name: String, type_id: String, unit_id: u64) -> (p: Self)
        ensures
            p.id == id,
            p.name@ == name@,
            p.type_id@ == type_id@,
            p.unit_id == unit_id,
            p.unit@ == Seq::<char>::empty(),
    {
        proof {
            reveal_strlit("");
        }
        Parameter2 { id, name, type_id, unit_id, unit: "" }
    }

    /// Whether `self` is `row` with its unit text resolved from
    /// `catalog`.
    pub open spec fn resolved_from(self, row: Parameter2<'a>, catalog: Catalog) -> bool {
        &&& self.id == row.id
        &&& self.name == row.name
        &&& self.type_id == row.type_id
        &&& self.unit_id == row.unit_id
        &&& self.unit@ == catalog.unit_text(row.unit_id)
    }

    /// Sets the unit text to the one the catalog holds for `unit_id`.
    pub fn set_unit_from_cache(&mut self, catalog: &'a Catalog)
        requires
            catalog.has_unit(old(self).unit_id),
        ensures
            final(self).resolved_from(*old(self), *catalog),
    {
        self.unit = catalog.unit(self.unit_id);
    }
}

/// Resolves the unit text of every parameter read from the database.
pub fn get_parameters<'a>(fetched: Vec<Parameter2<'a>>, catalog: &'a Catalog) -> (parameters: Vec<
    Parameter2<'a>,
>)
    requires
        forall|i: int| 0 <= i < fetched@.len() ==> catalog.has_unit(#[trigger] fetched@[i].unit_id),
    ensures
        parameters@.len() == fetched@.len(),
        forall|i: int|
            0 <= i < fetched@.len() ==> #[trigger] parameters@[i].resolved_from(
                fetched@[i],
                *catalog,
            ),
{
    let mut parameters = fetched;
    let n = parameters.len();
    for i in 0..n
        invariant
            n == fetched@.len(),
            parameters@.len() == n,
            forall|j: int| 0 <= j < n ==> catalog.has_unit(#[trigger] fetched@[j].unit_id),
            forall|j: int| 0 <= j < i ==> #[trigger] parameters@[j].resolved_from(fetched@[j], *catalog),
            forall|j: int| i <= j < n ==> #[trigger] parameters@[j] == fetched@[j],
    {
        parameters[i].set_unit_from_cache(catalog);
    }
    parameters
}

/// A parameter value of a resource as listed on the resource's page.
pub struct Parameter3<N> {
    pub id: u64,
    pub name: String,
    pub value: Value<N>,
    pub unit: Option<String>,
    pub movable: bool,
    pub res_param_id: u64,
}

impl<N> Parameter3<N> {
    /// A resource parameter from the columns of its row; the value is read
    /// as [`column_value`] says.
    pub fn new(
        id: u64,
        name: String,
        val_float: Option<N>,
        val_text: Option<String>,
        val_res: Option<String>,
        unit: Option<String>,
        movable: bool,
        res_param_id: u64,
    ) -> (p: Self)
        ensures
            p.id == id,
            p.name == name,
            p.value == column_value(val_float, val_text, val_res),
            p.unit == unit,
            p.movable == movable,
            p.res_param_id == res_param_id,
    {
        let value = Value::from_columns(val_float, val_text, val_res);
        Parameter3 { id, name, value, unit, movable, res_param_id }
    }
}

/// The row that defining a new parameter writes.
pub struct NewParameter {
    pub name: String,
    pub type_id: u64,
    pub unit: u64,
}

/// The row for a new parameter: only number parameters keep their unit,
/// every other type is stored with unit 0.
pub fn new_parameter(name: String, type_id: u64, unit: u64) -> (p: NewParameter)
    ensures
        p.name == name,
        p.type_id == type_id,
        p.unit == (if type_id == PARAM_TYPE_NUMBER {
            unit
        } else {
            0
        }),
{
    let mut unit = unit;
    if type_id != PARAM_TYPE_NUMBER {
        unit = 0;
    }
    NewParameter { name, type_id, unit }
}

/// Whether a parameter may be assigned to a resource as movable: only
/// numeric parameters (an amount such as a weight) are transportable.
/// `param_type` is what the lookup of the parameter's type returned; it is
/// read only when `movable` is set.
pub fn validate_movable(movable: bool, param_type: &Vec<u64>) -> (r: Result<(), String>)
    requires
        movable ==> param_type@.len() > 0,
    ensures
        r is Err <==> movable && param_type@[0] != PARAM_TYPE_NUMBER,
        r matches Err(e) ==> e@ == "Only numeric parameters are transportable."@,
{
    if movable && param_type[0] != PARAM_TYPE_NUMBER {
        return Err("Only numeric parameters are transportable.".to_owned());
    }
    Ok(())
}

/// Whether the parameter type that a lookup returned is the resource type.
pub fn is_type_resource(param_type: &Vec<u64>) -> (r: bool)
    requires
        param_type@.len() > 0,
    ensures
        r == (param_type@[0] == PARAM_TYPE_RESOURCE),
{
    param_type[0] == PARAM_TYPE_RESOURCE
}

} // verus!
