use vstd::prelude::*;

verus! {

/// What a read of the key-value store yields: the stored value, or the
/// sentinel "Bad-Key!" when the key is absent.
pub fn value_or_bad_key(value: Option<String>) -> (r: String)
    ensures
        value matches Some(v) ==> r == v,
        value is None ==> r@ == "Bad-Key!"@,
{
    match value {
        Some(v) => v,
        None => String::from_str("Bad-Key!"),
    }
}

} // verus!
