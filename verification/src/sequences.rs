use vstd::prelude::*;

verus! {

/// The counter values printed by the loop that breaks at its bound: the
/// loop runs exactly `bound` times and reports 1 up to `bound`, in order.
pub fn count_sequence(bound: u32) -> (r: Vec<u32>)
    ensures
        r@.len() == bound,
        forall|i: int| 0 <= i < bound ==> r@[i] == i + 1,
{
    let mut values: Vec<u32> = Vec::new();
    let mut count: u32 = 0;
    loop
        invariant
            count <= bound,
            values@.len() == count,
            forall|i: int| 0 <= i < count ==> values@[i] == i + 1,
        ensures
            count == bound,
        decreases bound - count,
    {
        if count == bound {
            break;
        }
        count = count + 1;
        values.push(count);
    }
    values
}

/// The values visited by the bounded range iteration: 0 up to (but not
/// including) `n`, in ascending order.
pub fn range_sequence(n: u32) -> (r: Vec<u32>)
    ensures
        r@.len() == n,
        forall|i: int| 0 <= i < n ==> r@[i] == i,
{
    let mut values: Vec<u32> = Vec::new();
    let mut x: u32 = 0;
    while x < n
        invariant
            x <= n,
            values@.len() == x,
            forall|i: int| 0 <= i < x ==> values@[i] == i,
        decreases n - x,
    {
        values.push(x);
        x = x + 1;
    }
    values
}

/// Queries a growable sequence by position: the element when the position
/// is in range, and the explicit absence marker otherwise.
pub fn element_at(values: &Vec<i32>, index: usize) -> (r: Option<i32>)
    ensures
        index < values@.len() ==> r == Some(values@[index as int]),
        index >= values@.len() ==> r is None,
{
    if index < values.len() {
        Some(values[index])
    } else {
        None
    }
}

} // verus!
