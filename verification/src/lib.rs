//! A model router: a host asks which model should answer a request, calls
//! it, and reports how the call went. Reports steer later decisions for the
//! same conversation through a bounded, expiring state.
use vstd::prelude::*;

pub mod algorithms;
pub mod binding;
pub mod evolving;
pub mod laws;
pub mod protocol;
pub mod runtime;
pub mod state;
pub mod training;

verus! {

} // verus!
