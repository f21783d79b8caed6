use vstd::prelude::*;

verus! {

/// A tuple struct whose one field is public.
pub struct PublicType(pub i32);

/// A tuple struct private to this module.
struct PrivateType(i32);

/// Visible anywhere in this crate.
pub(crate) fn crate_visible() {
}

/// Visible in the parent module.
pub(super) fn parent_visible() {
}

/// Visible only inside this module.
pub(in crate::visibility_demo) fn in_path_visible() {
}

/// Builds a value of the private type, which only this module can name.
fn _use_private() -> (r: i32)
    ensures
        r == 0,
{
    let p = PrivateType(0);
    p.0
}

} // verus!
