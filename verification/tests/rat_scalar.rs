//! Exact-value checks of the rational scalar.

use dess::rat::Rat;
use dess::scalar::{min_val, ScalarOps};

fn rat(n: i64, d: i64) -> Rat {
    Rat::new(n, d)
}

#[test]
fn rat_add_reduces() {
    // 1/2 + 1/3 == 5/6, 1/4 + 1/4 == 1/2 (reduced)
    assert!(rat(1, 2).add(rat(1, 3)).eq_val(rat(5, 6)));
    assert!(rat(1, 4).add(rat(1, 4)).eq_val(rat(1, 2)));
    assert!(rat(1, 4).add(rat(1, 4)) == rat(1, 2));
}

#[test]
fn rat_sub_mul_div_neg() {
    assert!(rat(3, 4).sub(rat(1, 4)).eq_val(rat(1, 2)));
    assert!(rat(2, 3).mul(rat(3, 4)).eq_val(rat(1, 2)));
    assert!(rat(1, 2).div(rat(1, 8)).eq_val(rat(4, 1)));
    assert!(rat(1, 2).div(rat(-1, 8)).eq_val(rat(-4, 1)));
    assert!(rat(5, 7).neg().eq_val(rat(-5, 7)));
    // division by zero falls back to zero
    assert!(rat(3, 1).div(rat(0, 5)).eq_val(rat(0, 1)));
}

#[test]
fn rat_order_and_min() {
    assert!(rat(1, 3).lt(rat(1, 2)));
    assert!(rat(1, 2).le(rat(2, 4)));
    assert!(!rat(1, 2).lt(rat(2, 4)));
    assert!(min_val(rat(7, 2), rat(10, 3)).eq_val(rat(10, 3)));
    assert!(rat(-1, 2).lt(rat(0, 1)));
}

#[test]
fn rat_ratio_normalises_sign() {
    assert!(rat(1, -2).eq_val(rat(-1, 2)));
    assert!(rat(-6, -4).eq_val(rat(3, 2)));
    // a zero denominator falls back to zero
    assert!(rat(5, 0).eq_val(rat(0, 1)));
}

#[test]
fn rat_sqrt_is_floor() {
    // sqrt of a perfect square is exact
    assert!(rat(9, 1).sqrt().eq_val(rat(3, 1)));
    assert!(rat(9, 4).sqrt().eq_val(rat(3, 2)));
    // otherwise rounded down on the scaled integer grid
    assert!(rat(2, 1).sqrt().eq_val(rat(1, 1)));
    assert!(rat(0, 1).sqrt().eq_val(rat(0, 1)));
    // a negative argument falls back to zero
    assert!(rat(-4, 1).sqrt().eq_val(rat(0, 1)));
}

#[test]
fn rat_pow_frac_is_identity() {
    // fractional powers are not representable exactly; the rational
    // scalar leaves its argument unchanged
    assert!(rat(32, 1).pow_frac(1, 5).eq_val(rat(32, 1)));
}
