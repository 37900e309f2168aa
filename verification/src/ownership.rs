use vstd::prelude::*;

verus! {

/// Moves a value to a new owner.  The old binding is consumed — the
/// language itself forbids any later use of it — and the new owner holds
/// exactly the value that was handed over.
pub fn take_ownership<T>(value: T) -> (r: T)
    ensures
        r == value,
{
    value
}

} // verus!
