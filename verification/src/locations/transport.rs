//! Amounts of resources at locations, as transport reads them.
use vstd::prelude::*;

verus! {

/// The amount that the lookup of a resource location found: the amount
/// itself, an error when no such location exists, or the lookup's own
/// error.
pub fn get_res_amount_at_location<N>(found: Result<Option<N>, String>) -> (amount: Result<N, String>)
    ensures
        found matches Ok(Some(a)) ==> amount == Ok::<N, String>(a),
        found matches Ok(None) ==> amount matches Err(e) && e@ == "No such resource location."@,
        found matches Err(e) ==> amount == Err::<N, String>(e),
{
    match found {
        Ok(Some(a)) => Ok(a),
        Ok(None) => Err("No such resource location.".to_owned()),
        Err(e) => Err(e),
    }
}

} // verus!
