//! A sentiment endpoint's request handling: reading the `text` query field,
//! turning a classifier's answer into the reply, and deciding when the
//! success counter moves.
use vstd::prelude::*;

pub mod handler;
pub mod query;
pub mod sentiment;

verus! {

} // verus!
