use vstd::prelude::*;

verus! {

/// The sound a cat makes.
pub fn sound() -> (r: &'static str)
    ensures
        r@ == "meow"@,
{
    "meow"
}

} // verus!
