//! Resolving the gateway that serves a run.

use vstd::prelude::*;
use crate::errors::CrankError;
use crate::model::Gateway;

verus! {

/// Select the gateway that will serve this run: the first member of the
/// queue's resolved list. An empty list is a configuration failure;
/// downstream code must never index into it.
pub fn select_gateway(gateways: Vec<Gateway>) -> (r: Result<Gateway, CrankError>)
    ensures
        gateways@.len() == 0 ==> r == Err::<Gateway, CrankError>(CrankError::EmptyQueue),
        gateways@.len() > 0 ==> r == Ok::<Gateway, CrankError>(gateways@[0]),
{
    let mut list = gateways;
    if list.len() == 0 {
        Err(CrankError::EmptyQueue)
    } else {
        Ok(list.remove(0))
    }
}

} // verus!
