use vstd::prelude::*;

verus! {

/// The sound a dog makes.
pub fn sound() -> (r: &'static str)
    ensures
        r@ == "woof"@,
{
    "woof"
}

} // verus!
