//! Propositional connectives as linear constraints over 0/1 integers.
//!
//! A truth value is the integer 0 (false) or 1 (true). Each function of this
//! library decides one connective by evaluating a single linear constraint
//! on its arguments, built from `+`, `-`, `==`, `<`, `<=`, `>`, `>=` and `&&`
//! only, so that the same constraint can be placed in a linear or integer
//! program. The contracts relate every constraint to the connective that it
//! encodes.
//!
//! - [`truth`]: the truth values and the propositions they stand for.
//! - [`semantics`]: what each connective means, as a proposition.
//! - [`base`]: negation and the binary connectives.
//! - [`compound`]: implications with a conjunction or disjunction on one side.
//! - [`laws`]: how the connectives relate to one another.

pub mod truth;
pub mod semantics;
pub mod base;
pub mod compound;
pub mod laws;

pub use crate::base::{
    a_and_not_b, a_or_not_b, and, equivalence, implication, nand, nor, not, or, xor,
};
pub use crate::compound::{
    implication_with_double_antecedent_and, implication_with_double_antecedent_or,
    implication_with_double_consequent_and, implication_with_double_consequent_or,
};
