use vstd::prelude::*;

verus! {

/// The selection of a text surface from its two ends, when it reports both.
pub fn selection_range(start: Option<u32>, end: Option<u32>) -> (r: Option<(u32, u32)>)
    ensures
        r == match (start, end) {
            (Some(s), Some(e)) => Some((s, e)),
            _ => None,
        },
{
    match (start, end) {
        (Some(s), Some(e)) => Some((s, e)),
        _ => None,
    }
}

} // verus!
