use vstd::prelude::*;

pub mod cat;
pub mod dog;

verus! {

} // verus!
