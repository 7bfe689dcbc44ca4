//! Rounded integer division by a positive divisor.
//!
//! Assembling a portal placement quantises its exact rational position to
//! whole millis; these two functions carry the flooring and
//! nearest-rounding with exact contracts.

use vstd::prelude::*;

verus! {

/// Operand magnitude accepted by the rounded divisions.
pub const DIV_OPERAND_LIMIT: i128 = 0x1_0000_0000_0000_0000_0000_0000;

/// Divisor magnitude accepted by the rounded divisions.
pub const DIV_DIVISOR_LIMIT: i128 = 0x1000_0000_0000_0000;

/// Floor division by a positive divisor: the unique `q` with
/// `b * q <= a < b * (q + 1)`.
pub fn div_floor(a: i128, b: i128) -> (q: i128)
    requires
        0 < b <= DIV_DIVISOR_LIMIT,
        -DIV_OPERAND_LIMIT <= a <= DIV_OPERAND_LIMIT,
    ensures
        b * q <= a < b * (q + 1),
{
    if a >= 0 {
        let q = a / b;
        proof {
            vstd::arithmetic::div_mod::lemma_fundamental_div_mod(a as int, b as int);
            vstd::arithmetic::div_mod::lemma_mod_division_less_than_divisor(a as int, b as int);
            vstd::arithmetic::mul::lemma_mul_is_distributive_add(b as int, q as int, 1);
            vstd::arithmetic::mul::lemma_mul_basics(b as int);
            vstd::arithmetic::div_mod::lemma_div_pos_is_pos(a as int, b as int);
            vstd::arithmetic::div_mod::lemma_div_is_ordered(a as int, DIV_OPERAND_LIMIT as int,
                b as int);
            vstd::arithmetic::div_mod::lemma_div_nonincreasing(DIV_OPERAND_LIMIT as int, b as int);
        }
        q
    } else {
        let na = -a;
        let nb = na + b - 1;
        let qq = nb / b;
        proof {
            vstd::arithmetic::div_mod::lemma_fundamental_div_mod(nb as int, b as int);
            vstd::arithmetic::div_mod::lemma_mod_division_less_than_divisor(nb as int, b as int);
            vstd::arithmetic::mul::lemma_mul_is_distributive_add(b as int, qq as int, 1);
            vstd::arithmetic::mul::lemma_mul_basics(b as int);
            vstd::arithmetic::div_mod::lemma_div_pos_is_pos(nb as int, b as int);
            vstd::arithmetic::div_mod::lemma_div_is_ordered(nb as int, 2 * DIV_OPERAND_LIMIT as int,
                b as int);
            vstd::arithmetic::div_mod::lemma_div_nonincreasing(2 * DIV_OPERAND_LIMIT as int,
                b as int);
            vstd::arithmetic::mul::lemma_mul_unary_negation(qq as int, b as int);
            vstd::arithmetic::mul::lemma_mul_is_commutative(qq as int, b as int);
            vstd::arithmetic::mul::lemma_mul_is_commutative(b as int, -(qq as int));
            vstd::arithmetic::mul::lemma_mul_is_distributive_add(b as int, -(qq as int), 1);
        }
        -qq
    }
}

/// Division rounded to the nearest integer (ties upward) by a positive
/// divisor: the result differs from the exact quotient by at most half.
pub fn div_round(a: i128, b: i128) -> (q: i128)
    requires
        0 < b <= DIV_DIVISOR_LIMIT / 2,
        -(DIV_OPERAND_LIMIT / 4) <= a <= DIV_OPERAND_LIMIT / 4,
    ensures
        -b <= 2 * (a - b * q) < b,
{
    let q = div_floor(2 * a + b, 2 * b);
    proof {
        vstd::arithmetic::mul::lemma_mul_is_distributive_add(2 * b as int, q as int, 1);
        vstd::arithmetic::mul::lemma_mul_is_associative(2, b as int, q as int);
    }
    q
}

} // verus!
