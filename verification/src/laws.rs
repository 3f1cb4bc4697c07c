//! How the connectives relate to one another, on truth values.

use vstd::prelude::*;
use crate::truth::{holds, is_truth_value, truth_value};
use crate::semantics::{
    spec_a_and_not_b, spec_a_or_not_b, spec_and, spec_implication,
    spec_implication_with_double_antecedent_or, spec_implication_with_double_consequent_and,
    spec_nand, spec_nor, spec_not, spec_or,
};

verus! {

/// Every proposition has a truth value, which stands for that proposition
/// again.
pub proof fn lemma_truth_value_holds(p: bool)
    ensures
        is_truth_value(truth_value(p)),
        holds(truth_value(p)) == p,
{
}

/// A truth value is the truth value of the proposition that it stands for.
pub proof fn lemma_holds_truth_value(a: u8)
    requires
        is_truth_value(a),
    ensures
        truth_value(holds(a)) == a,
{
}

/// The negation of a truth value is its complement `1 - a`, a truth value
/// again.
pub proof fn lemma_not_is_complement(a: u8)
    requires
        is_truth_value(a),
    ensures
        truth_value(spec_not(a)) == 1 - a,
        is_truth_value(truth_value(spec_not(a))),
{
}

/// NAND is the negation of AND: the constraint `a + b <= 1` holds exactly
/// where `a == 1 && b == 1` fails.
pub proof fn lemma_nand_negates_and(a: u8, b: u8)
    requires
        is_truth_value(a),
        is_truth_value(b),
    ensures
        spec_nand(a, b) == !spec_and(a, b),
        (a + b <= 1) == !(a == 1 && b == 1),
{
}

/// NOR is the negation of OR: the constraint `a + b == 0` holds exactly
/// where `a + b >= 1` fails.
pub proof fn lemma_nor_negates_or(a: u8, b: u8)
    requires
        is_truth_value(a),
        is_truth_value(b),
    ensures
        spec_nor(a, b) == !spec_or(a, b),
        (a + b == 0) == !(a + b >= 1),
{
}

/// a ∧ ¬b is the conjunction of `a` with the negation of `b`: the
/// constraint `a > b` is that of AND on `a` and the complement of `b`.
pub proof fn lemma_a_and_not_b_is_and_of_not(a: u8, b: u8)
    requires
        is_truth_value(a),
        is_truth_value(b),
    ensures
        spec_a_and_not_b(a, b) == spec_and(a, truth_value(spec_not(b))),
        (a > b) == (a == 1 && 1 - b == 1),
{
}

/// a ∨ ¬b is the disjunction of `a` with the negation of `b`: the
/// constraint `b <= a` is that of OR on `a` and the complement of `b`.
pub proof fn lemma_a_or_not_b_is_or_of_not(a: u8, b: u8)
    requires
        is_truth_value(a),
        is_truth_value(b),
    ensures
        spec_a_or_not_b(a, b) == spec_or(a, truth_value(spec_not(b))),
        (b <= a) == (a + (1 - b) >= 1),
{
}

/// a → (b ∧ c) is the conjunction of the two implications a → b and a → c,
/// which is how its constraint `a <= b && a <= c` is put together.
pub proof fn lemma_double_consequent_and_is_two_implications(a: u8, b: u8, c: u8)
    requires
        is_truth_value(a),
        is_truth_value(b),
        is_truth_value(c),
    ensures
        spec_implication_with_double_consequent_and(a, b, c) == (spec_implication(a, b)
            && spec_implication(a, c)),
{
}

/// (a ∨ b) → c is the conjunction of the two implications a → c and b → c,
/// which is how its constraint `a <= c && b <= c` is put together.
pub proof fn lemma_double_antecedent_or_is_two_implications(a: u8, b: u8, c: u8)
    requires
        is_truth_value(a),
        is_truth_value(b),
        is_truth_value(c),
    ensures
        spec_implication_with_double_antecedent_or(a, b, c) == (spec_implication(a, c)
            && spec_implication(b, c)),
{
}

} // verus!
