use vstd::prelude::*;

verus! {

/// A number that stands for no `bool`: only zero and one do.
#[derive(Debug)]
pub struct NotZeroOrOne(pub u8);

/// The number written for a `bool`: zero for false, one for true.
pub open spec fn bool_number(b: bool) -> u8 {
    if b {
        1
    } else {
        0
    }
}

/// The `bool` read from a number, or the number that stands for none.
pub open spec fn bool_from_number(v: u8) -> Result<bool, NotZeroOrOne> {
    if v == 0 {
        Ok(false)
    } else if v == 1 {
        Ok(true)
    } else {
        Err(NotZeroOrOne(v))
    }
}

/// Reads a `bool` from its number: zero for false, one for true, and an
/// error for any other number.
pub fn deserialize(value: u8) -> (r: Result<bool, NotZeroOrOne>)
    ensures
        r == bool_from_number(value),
{
    match value {
        0 => Ok(false),
        1 => Ok(true),
        other => Err(NotZeroOrOne(other)),
    }
}

/// The number written for a `bool`: zero for false, one for true.
pub fn serialize(value: &bool) -> (r: u8)
    ensures
        r == bool_number(*value),
{
    match value {
        false => 0,
        true => 1,
    }
}

/// Reading back the number written for a `bool` gives that `bool`, and a
/// number that reads as a `bool` is the number written for it.
pub proof fn lemma_bool_number_round_trip(b: bool, v: u8)
    ensures
        bool_from_number(bool_number(b)) == Ok::<bool, NotZeroOrOne>(b),
        bool_from_number(v) matches Ok(c) ==> bool_number(c) == v,
{
}

} // verus!
