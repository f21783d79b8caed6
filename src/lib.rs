use vstd::prelude::*;

pub mod animals;
pub mod fallback;
pub mod geometry;
pub mod notes;
pub mod visibility_demo;

verus! {

} // verus!
