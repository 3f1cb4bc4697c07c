//! Truth values: the integers 0 and 1.

use vstd::prelude::*;

verus! {

/// The two integers that stand for a proposition: 0 for a false one, 1 for a
/// true one.
pub open spec fn is_truth_value(a: u8) -> bool {
    a == 0 || a == 1
}

/// The proposition that the truth value `a` stands for.
pub open spec fn holds(a: u8) -> bool
    recommends
        is_truth_value(a),
{
    a == 1
}

/// The truth value that stands for the proposition `p`.
pub open spec fn truth_value(p: bool) -> u8 {
    if p {
        1
    } else {
        0
    }
}

} // verus!
