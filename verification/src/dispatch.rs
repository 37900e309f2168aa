use vstd::prelude::*;

verus! {

/// What the demo's threshold branch decides: whether the given age meets
/// the fixed bound of 18.
pub fn is_old_enough(age: i32) -> (r: bool)
    ensures
        r <==> age >= 18,
{
    age >= 18
}

/// The text chosen by the color match: each color of the fixed case set
/// maps to itself, anything else to "unknown".
pub open spec fn spec_color_name(c: Seq<char>) -> Seq<char> {
    if c == "red"@ {
        "red"@
    } else if c == "blue"@ {
        "blue"@
    } else if c == "green"@ {
        "green"@
    } else {
        "unknown"@
    }
}

/// Dispatches a color word against the fixed case set.
pub fn color_name(color: &str) -> (r: &'static str)
    ensures
        r@ == spec_color_name(color@),
{
    let c = color.to_owned();
    if c == "red".to_owned() {
        "red"
    } else if c == "blue".to_owned() {
        "blue"
    } else if c == "green".to_owned() {
        "green"
    } else {
        "unknown"
    }
}

/// The message chosen by the numeric match: the English word for 1, 2
/// and 3, and "other" for every other integer.
pub open spec fn spec_number_name(x: int) -> Seq<char> {
    if x == 1 {
        "one"@
    } else if x == 2 {
        "two"@
    } else if x == 3 {
        "three"@
    } else {
        "other"@
    }
}

/// Dispatches an integer against the literal cases 1 through 3.
pub fn number_name(x: i32) -> (r: &'static str)
    ensures
        r@ == spec_number_name(x as int),
{
    match x {
        1 => "one",
        2 => "two",
        3 => "three",
        _ => "other",
    }
}

/// The message chosen by the optional-value match: a present payload is
/// dispatched like the numeric match; absence falls to the default case.
pub open spec fn spec_option_name(x: Option<i32>) -> Seq<char> {
    match x {
        Some(n) => spec_number_name(n as int),
        None => "other"@,
    }
}

/// Dispatches an optional integer's payload against the literal cases.
pub fn option_name(x: Option<i32>) -> (r: &'static str)
    ensures
        r@ == spec_option_name(x),
{
    match x {
        Some(n) => crate::dispatch::number_name(n),
        None => "other",
    }
}

} // verus!
