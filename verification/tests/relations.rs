use boolean_lp::{
    a_and_not_b, a_or_not_b, and, equivalence, implication,
    implication_with_double_antecedent_and, implication_with_double_antecedent_or,
    implication_with_double_consequent_and, implication_with_double_consequent_or, nand, nor,
    not, or, xor,
};

const TRUTH_VALUES: [u8; 2] = [0, 1];

fn truth_value(p: bool) -> u8 {
    if p {
        1
    } else {
        0
    }
}

#[test]
fn nand_is_the_negation_of_and() {
    for a in TRUTH_VALUES {
        for b in TRUTH_VALUES {
            assert_eq!(nand(a, b), !and(a, b), "a: {}, b: {}", a, b);
        }
    }
    assert_eq!(nand(1, 1), false);
    assert_eq!(and(1, 1), true);
}

#[test]
fn nor_is_the_negation_of_or() {
    for a in TRUTH_VALUES {
        for b in TRUTH_VALUES {
            assert_eq!(nor(a, b), !or(a, b), "a: {}, b: {}", a, b);
        }
    }
    assert_eq!(nor(0, 0), true);
    assert_eq!(or(0, 0), false);
}

#[test]
fn a_and_not_b_is_and_with_negated_b() {
    for a in TRUTH_VALUES {
        for b in TRUTH_VALUES {
            assert_eq!(a_and_not_b(a, b), and(a, truth_value(not(b))), "a: {}, b: {}", a, b);
            assert_eq!(a_and_not_b(a, b), and(a, 1 - b), "a: {}, b: {}", a, b);
        }
    }
    assert_eq!(a_and_not_b(1, 0), true);
    assert_eq!(and(1, truth_value(not(0))), true);
}

#[test]
fn a_or_not_b_is_or_with_negated_b() {
    for a in TRUTH_VALUES {
        for b in TRUTH_VALUES {
            assert_eq!(a_or_not_b(a, b), or(a, truth_value(not(b))), "a: {}, b: {}", a, b);
            assert_eq!(a_or_not_b(a, b), or(a, 1 - b), "a: {}, b: {}", a, b);
        }
    }
    assert_eq!(a_or_not_b(0, 1), false);
    assert_eq!(or(0, truth_value(not(1))), false);
}

#[test]
fn negation_is_the_complement() {
    for a in TRUTH_VALUES {
        assert_eq!(truth_value(not(a)), 1 - a, "a: {}", a);
        assert_eq!(not(truth_value(not(a))), a == 1, "a: {}", a);
    }
    assert_eq!(truth_value(not(0)), 1);
    assert_eq!(truth_value(not(1)), 0);
}

#[test]
fn every_connective_decides_every_assignment() {
    let mut unary: u32 = 0;
    let mut binary: u32 = 0;
    let mut ternary: u32 = 0;
    for a in TRUTH_VALUES {
        let r = not(a);
        assert!(r == true || r == false);
        unary += 1;
        for b in TRUTH_VALUES {
            for r in [
                and(a, b),
                or(a, b),
                xor(a, b),
                implication(a, b),
                equivalence(a, b),
                nand(a, b),
                nor(a, b),
                a_and_not_b(a, b),
                a_or_not_b(a, b),
            ] {
                assert!(truth_value(r) <= 1);
                binary += 1;
            }
            for c in TRUTH_VALUES {
                for r in [
                    implication_with_double_consequent_and(a, b, c),
                    implication_with_double_consequent_or(a, b, c),
                    implication_with_double_antecedent_and(a, b, c),
                    implication_with_double_antecedent_or(a, b, c),
                ] {
                    assert!(truth_value(r) <= 1);
                    ternary += 1;
                }
            }
        }
    }
    assert_eq!(unary, 2);
    assert_eq!(binary, 36);
    assert_eq!(ternary, 32);
}

#[test]
fn compound_implications_agree_with_their_parts() {
    for a in TRUTH_VALUES {
        for b in TRUTH_VALUES {
            for c in TRUTH_VALUES {
                assert_eq!(
                    implication_with_double_consequent_and(a, b, c),
                    implication(a, truth_value(and(b, c))),
                    "a: {}, b: {}, c: {}", a, b, c
                );
                assert_eq!(
                    implication_with_double_consequent_or(a, b, c),
                    implication(a, truth_value(or(b, c))),
                    "a: {}, b: {}, c: {}", a, b, c
                );
                assert_eq!(
                    implication_with_double_antecedent_and(a, b, c),
                    implication(truth_value(and(a, b)), c),
                    "a: {}, b: {}, c: {}", a, b, c
                );
                assert_eq!(
                    implication_with_double_antecedent_or(a, b, c),
                    implication(truth_value(or(a, b)), c),
                    "a: {}, b: {}, c: {}", a, b, c
                );
            }
        }
    }
    assert_eq!(implication_with_double_consequent_and(1, 1, 0), false);
    assert_eq!(implication_with_double_consequent_or(1, 0, 0), false);
    assert_eq!(implication_with_double_antecedent_and(1, 1, 0), false);
    assert_eq!(implication_with_double_antecedent_or(0, 1, 0), false);
}

#[test]
fn xor_and_equivalence_are_opposites() {
    for a in TRUTH_VALUES {
        for b in TRUTH_VALUES {
            assert_eq!(xor(a, b), !equivalence(a, b), "a: {}, b: {}", a, b);
        }
    }
    assert_eq!(xor(0, 1), true);
    assert_eq!(equivalence(0, 1), false);
}
