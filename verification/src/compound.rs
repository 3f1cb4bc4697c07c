//! Implications with a conjunction or a disjunction of two atoms on one
//! side, each as one flat linear constraint over three truth values.

use vstd::prelude::*;
use crate::truth::is_truth_value;
use crate::semantics::{
    spec_implication_with_double_antecedent_and,
    spec_implication_with_double_antecedent_or,
    spec_implication_with_double_consequent_and,
    spec_implication_with_double_consequent_or,
};

verus! {

/// a → (b ∧ c), encoded as `a <= b` and `a <= c`: a true antecedent forces
/// both consequents to 1.
pub fn implication_with_double_consequent_and(a: u8, b: u8, c: u8) -> (r: bool)
    requires
        is_truth_value(a),
        is_truth_value(b),
        is_truth_value(c),
    ensures
        r == spec_implication_with_double_consequent_and(a, b, c),
        r == (a <= b && a <= c),
{
    a <= b && a <= c
}

/// a → (b ∨ c), encoded as `a <= b + c`: a true antecedent needs at least
/// one consequent at 1.
pub fn implication_with_double_consequent_or(a: u8, b: u8, c: u8) -> (r: bool)
    requires
        is_truth_value(a),
        is_truth_value(b),
        is_truth_value(c),
    ensures
        r == spec_implication_with_double_consequent_or(a, b, c),
        r == (a <= b + c),
{
    a <= b + c
}

/// (a ∧ b) → c, encoded as `a + b <= c + 1`: the slack of 1 admits every
/// assignment but a = b = 1, c = 0.
pub fn implication_with_double_antecedent_and(a: u8, b: u8, c: u8) -> (r: bool)
    requires
        is_truth_value(a),
        is_truth_value(b),
        is_truth_value(c),
    ensures
        r == spec_implication_with_double_antecedent_and(a, b, c),
        r == (a + b <= c + 1),
{
    a + b <= c + 1
}

/// (a ∨ b) → c, encoded as `a <= c` and `b <= c`: each antecedent alone
/// forces the consequent to 1.
pub fn implication_with_double_antecedent_or(a: u8, b: u8, c: u8) -> (r: bool)
    requires
        is_truth_value(a),
        is_truth_value(b),
        is_truth_value(c),
    ensures
        r == spec_implication_with_double_antecedent_or(a, b, c),
        r == (a <= c && b <= c),
{
    a <= c && b <= c
}

} // verus!
