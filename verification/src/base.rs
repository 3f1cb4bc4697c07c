//! Negation and the binary connectives, each as one linear constraint over
//! its truth values.

use vstd::prelude::*;
use crate::truth::is_truth_value;
use crate::semantics::{
    spec_a_and_not_b, spec_a_or_not_b, spec_and, spec_equivalence, spec_implication, spec_nand,
    spec_nor, spec_not, spec_or, spec_xor,
};

verus! {

/// ¬a, encoded as `a == 0`.
pub fn not(a: u8) -> (r: bool)
    requires
        is_truth_value(a),
    ensures
        r == spec_not(a),
        r == (a == 0),
{
    a == 0
}

/// a ∧ b, encoded as `a == 1` and `b == 1`.
pub fn and(a: u8, b: u8) -> (r: bool)
    requires
        is_truth_value(a),
        is_truth_value(b),
    ensures
        r == spec_and(a, b),
        r == (a == 1 && b == 1),
{
    a == 1 && b == 1
}

/// a ∨ b, encoded as `a + b >= 1`.
pub fn or(a: u8, b: u8) -> (r: bool)
    requires
        is_truth_value(a),
        is_truth_value(b),
    ensures
        r == spec_or(a, b),
        r == (a + b >= 1),
{
    a + b >= 1
}

/// a ⊕ b, encoded as `a + b == 1`.
pub fn xor(a: u8, b: u8) -> (r: bool)
    requires
        is_truth_value(a),
        is_truth_value(b),
    ensures
        r == spec_xor(a, b),
        r == (a + b == 1),
{
    a + b == 1
}

/// a → b, encoded as `a <= b`.
pub fn implication(a: u8, b: u8) -> (r: bool)
    requires
        is_truth_value(a),
        is_truth_value(b),
    ensures
        r == spec_implication(a, b),
        r == (a <= b),
{
    a <= b
}

/// a ↔ b, encoded as `a == b`.
pub fn equivalence(a: u8, b: u8) -> (r: bool)
    requires
        is_truth_value(a),
        is_truth_value(b),
    ensures
        r == spec_equivalence(a, b),
        r == (a == b),
{
    a == b
}

/// ¬(a ∧ b), encoded as `a + b <= 1`.
pub fn nand(a: u8, b: u8) -> (r: bool)
    requires
        is_truth_value(a),
        is_truth_value(b),
    ensures
        r == spec_nand(a, b),
        r == (a + b <= 1),
{
    a + b <= 1
}

/// ¬(a ∨ b), encoded as `a + b == 0`.
pub fn nor(a: u8, b: u8) -> (r: bool)
    requires
        is_truth_value(a),
        is_truth_value(b),
    ensures
        r == spec_nor(a, b),
        r == (a + b == 0),
{
    a + b == 0
}

/// a ∧ ¬b, encoded as `a > b`.
pub fn a_and_not_b(a: u8, b: u8) -> (r: bool)
    requires
        is_truth_value(a),
        is_truth_value(b),
    ensures
        r == spec_a_and_not_b(a, b),
        r == (a > b),
{
    a > b
}

/// a ∨ ¬b, encoded as `b <= a`.
pub fn a_or_not_b(a: u8, b: u8) -> (r: bool)
    requires
        is_truth_value(a),
        is_truth_value(b),
    ensures
        r == spec_a_or_not_b(a, b),
        r == (b <= a),
{
    b <= a
}

} // verus!
