use vstd::prelude::*;

pub mod reply;
pub mod startup;

verus! {

} // verus!
