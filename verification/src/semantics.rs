//! The meaning of each connective, as a proposition over the propositions
//! that its arguments stand for. The arguments are meant to be truth values.

use vstd::prelude::*;
use crate::truth::{holds, is_truth_value};

verus! {

/// ¬a
pub open spec fn spec_not(a: u8) -> bool
    recommends
        is_truth_value(a),
{
    !holds(a)
}

/// a ∧ b
pub open spec fn spec_and(a: u8, b: u8) -> bool
    recommends
        is_truth_value(a),
        is_truth_value(b),
{
    holds(a) && holds(b)
}

/// a ∨ b
pub open spec fn spec_or(a: u8, b: u8) -> bool
    recommends
        is_truth_value(a),
        is_truth_value(b),
{
    holds(a) || holds(b)
}

/// a ⊕ b: exactly one of the two.
pub open spec fn spec_xor(a: u8, b: u8) -> bool
    recommends
        is_truth_value(a),
        is_truth_value(b),
{
    holds(a) != holds(b)
}

/// a → b
pub open spec fn spec_implication(a: u8, b: u8) -> bool
    recommends
        is_truth_value(a),
        is_truth_value(b),
{
    holds(a) ==> holds(b)
}

/// a → (b ∧ c)
pub open spec fn spec_implication_with_double_consequent_and(a: u8, b: u8, c: u8) -> bool
    recommends
        is_truth_value(a),
        is_truth_value(b),
        is_truth_value(c),
{
    holds(a) ==> (holds(b) && holds(c))
}

/// a → (b ∨ c)
pub open spec fn spec_implication_with_double_consequent_or(a: u8, b: u8, c: u8) -> bool
    recommends
        is_truth_value(a),
        is_truth_value(b),
        is_truth_value(c),
{
    holds(a) ==> (holds(b) || holds(c))
}

/// (a ∧ b) → c
pub open spec fn spec_implication_with_double_antecedent_and(a: u8, b: u8, c: u8) -> bool
    recommends
        is_truth_value(a),
        is_truth_value(b),
        is_truth_value(c),
{
    (holds(a) && holds(b)) ==> holds(c)
}

/// (a ∨ b) → c
pub open spec fn spec_implication_with_double_antecedent_or(a: u8, b: u8, c: u8) -> bool
    recommends
        is_truth_value(a),
        is_truth_value(b),
        is_truth_value(c),
{
    (holds(a) || holds(b)) ==> holds(c)
}

/// a ↔ b
pub open spec fn spec_equivalence(a: u8, b: u8) -> bool
    recommends
        is_truth_value(a),
        is_truth_value(b),
{
    holds(a) <==> holds(b)
}

/// ¬(a ∧ b)
pub open spec fn spec_nand(a: u8, b: u8) -> bool
    recommends
        is_truth_value(a),
        is_truth_value(b),
{
    !(holds(a) && holds(b))
}

/// ¬(a ∨ b)
pub open spec fn spec_nor(a: u8, b: u8) -> bool
    recommends
        is_truth_value(a),
        is_truth_value(b),
{
    !(holds(a) || holds(b))
}

/// a ∧ ¬b
pub open spec fn spec_a_and_not_b(a: u8, b: u8) -> bool
    recommends
        is_truth_value(a),
        is_truth_value(b),
{
    holds(a) && !holds(b)
}

/// a ∨ ¬b
pub open spec fn spec_a_or_not_b(a: u8, b: u8) -> bool
    recommends
        is_truth_value(a),
        is_truth_value(b),
{
    holds(a) || !holds(b)
}

} // verus!
