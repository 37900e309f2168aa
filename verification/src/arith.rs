use vstd::prelude::*;

verus! {

/// The demo's one pure function: the sum of two machine integers,
/// equal to their mathematical sum whenever that sum fits the type.
pub fn add(x: i32, y: i32) -> (r: i32)
    requires
        i32::MIN <= x + y <= i32::MAX,
    ensures
        r == x + y,
{
    x + y
}

} // verus!
