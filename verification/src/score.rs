//! Fixed-point scores.
//!
//! Risk scores, weights and thresholds are numbers between zero and one.
//! They are held as integers that count millionths, so `ONE` stands for 1.0
//! and `300_000` for 0.3.

use vstd::prelude::*;
use vstd::string::*;
use crate::text::{decimal_text, push_decimal, push_three_digits, six_digits, three_digits};

verus! {

/// The fixed-point number 1.0.
pub const ONE: u64 = 1_000_000;

/// `num / den` as a score, rounded down and capped at one; zero when `den`
/// is zero.
pub open spec fn fraction(num: nat, den: nat) -> nat {
    if den == 0 {
        0
    } else if num * ONE as nat / den >= ONE as nat {
        ONE as nat
    } else {
        num * ONE as nat / den
    }
}

/// `score` in thousandths, rounded to the nearest, halves upwards.
pub open spec fn thousandths(score: nat) -> nat {
    (score + 500) / 1000
}

/// `score` with three decimals, as in `0.850`.
pub open spec fn three_decimals(score: nat) -> Seq<char> {
    decimal_text(thousandths(score) / 1000) + seq!['.'] + three_digits(thousandths(score) % 1000)
}

/// `score` with all six decimals, as in `0.850000`.
pub open spec fn six_decimals(score: nat) -> Seq<char> {
    decimal_text(score / ONE as nat) + seq!['.'] + six_digits(score % ONE as nat)
}

/// Computes [`fraction`].
pub fn fraction_of(num: u64, den: u64) -> (score: u64)
    ensures
        score == fraction(num as nat, den as nat),
        score <= ONE,
{
    if den == 0 {
        0
    } else {
        assert((num as u128) * (ONE as u128) <= u128::MAX) by (nonlinear_arith)
            requires
                num <= u64::MAX,
                ONE == 1_000_000,
        ;
        let scaled: u128 = (num as u128) * (ONE as u128) / (den as u128);
        if scaled >= ONE as u128 {
            ONE
        } else {
            scaled as u64
        }
    }
}

/// Appends [`three_decimals`] of `score` to `out`.
pub fn push_three_decimals(out: &mut String, score: u64)
    ensures
        final(out)@ == old(out)@ + three_decimals(score as nat),
{
    let up: u64 = if score % 1000 >= 500 { 1 } else { 0 };
    let rounded: u64 = score / 1000 + up;
    assert(rounded == thousandths(score as nat));
    proof {
        reveal_strlit(".");
        assert("."@ =~= seq!['.']);
    }
    push_decimal(out, rounded / 1000);
    out.append(".");
    push_three_digits(out, rounded % 1000);
}

/// Appends [`six_decimals`] of `score` to `out`.
pub fn push_six_decimals(out: &mut String, score: u64)
    ensures
        final(out)@ == old(out)@ + six_decimals(score as nat),
{
    proof {
        reveal_strlit(".");
        assert("."@ =~= seq!['.']);
    }
    let frac: u64 = score % ONE;
    push_decimal(out, score / ONE);
    out.append(".");
    push_three_digits(out, frac / 1000);
    push_three_digits(out, frac % 1000);
    assert(three_digits((frac / 1000) as nat) + three_digits((frac % 1000) as nat) == six_digits(
        frac as nat,
    ));
}

} // verus!
