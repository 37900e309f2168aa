use vstd::prelude::*;

verus! {

/// The demo's record type: a plain width/height aggregate with no
/// invariants of its own.
pub struct Rectangle {
    pub width: u32,
    pub height: u32,
}

/// Area of a rectangle: exactly the product of its sides, whenever that
/// product fits the field type.
pub fn calculate_area(rectangle: &Rectangle) -> (r: u32)
    requires
        rectangle.width * rectangle.height <= u32::MAX,
    ensures
        r == rectangle.width * rectangle.height,
{
    rectangle.width * rectangle.height
}

} // verus!
