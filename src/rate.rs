//! Fixed-point exchange-rate arithmetic: a rate `r` at precision `p` stands
//! for the ratio `r / 10^p`.

use vstd::prelude::*;
use vstd::arithmetic::power::{pow, lemma_pow_adds, lemma_pow_increases, lemma_pow_positive};
use vstd::arithmetic::div_mod::lemma_fundamental_div_mod;

verus! {

/// `10^precision`.
pub open spec fn scale(precision: nat) -> int {
    pow(10, precision)
}

/// The inverse of the rate `rate / 10^precision` at the same precision:
/// `10^(2 * precision) / rate`, rounded down.
pub open spec fn inverse_rate_of(precision: nat, rate: int) -> int {
    scale(2 * precision) / rate
}

/// `amount` converted at the rate `rate / 10^precision`, rounded down.
pub open spec fn converted_amount(amount: int, rate: int, precision: nat) -> int {
    amount * rate / scale(precision)
}

/// Whether `convert_amount` can compute the conversion in a `u128`.
pub open spec fn conversion_fits(amount: int, rate: int, precision: nat) -> bool {
    amount * rate <= u128::MAX && scale(precision) <= u128::MAX
}

proof fn lemma_scale_step(i: nat)
    ensures
        scale(i + 1) == 10 * scale(i),
{
    reveal(pow);
}

/// A number beyond `u128` divided by one within `u64` is beyond `u64`.
proof fn lemma_quotient_beyond_u64(x: int, r: int)
    requires
        x > u128::MAX,
        0 < r <= u64::MAX,
    ensures
        x / r > u64::MAX,
{
    lemma_fundamental_div_mod(x, r);
    let q = x / r;
    let m = x % r;
    assert(0 <= m < r) by {
        vstd::arithmetic::div_mod::lemma_mod_bound(x, r);
    }
    if q <= u64::MAX {
        assert(r * q + m < r * (u64::MAX + 1)) by (nonlinear_arith)
            requires
                q <= u64::MAX,
                0 <= m < r,
                r > 0,
        ;
        assert(r * (u64::MAX + 1) <= u128::MAX + 1) by (nonlinear_arith)
            requires
                r <= u64::MAX,
        ;
    }
}

/// `10^precision`, or `None` where it does not fit in a `u128`.
pub fn pow10(precision: u32) -> (r: Option<u128>)
    ensures
        match r {
            Some(v) => v == scale(precision as nat),
            None => scale(precision as nat) > u128::MAX,
        },
{
    let mut v: u128 = 1;
    let mut i: u32 = 0;
    proof {
        reveal(pow);
    }
    while i < precision
        invariant
            i <= precision,
            v == scale(i as nat),
        decreases precision - i,
    {
        proof {
            lemma_scale_step(i as nat);
        }
        match v.checked_mul(10) {
            Some(w) => {
                v = w;
                i = i + 1;
            },
            None => {
                proof {
                    lemma_pow_increases(10, (i + 1) as nat, precision as nat);
                }
                return None;
            },
        }
    }
    Some(v)
}

/// The inverse of `rate` at `precision`, or `None` where `rate` is zero or the
/// inverse does not fit in a `u64`.
pub fn inverse_rate(precision: u32, rate: u64) -> (r: Option<u64>)
    ensures
        match r {
            Some(v) => rate != 0 && v == inverse_rate_of(precision as nat, rate as int),
            None => rate == 0 || inverse_rate_of(precision as nat, rate as int) > u64::MAX,
        },
{
    if rate == 0 {
        return None;
    }
    let ghost p = precision as nat;
    proof {
        lemma_pow_adds(10, p, p);
        assert(2 * p == p + p);
        lemma_pow_positive(10, p);
    }
    let base = match pow10(precision) {
        Some(b) => b,
        None => {
            proof {
                assert(scale(p) * scale(p) >= scale(p)) by (nonlinear_arith)
                    requires
                        scale(p) > 0,
                ;
                lemma_quotient_beyond_u64(scale(2 * p), rate as int);
            }
            return None;
        },
    };
    let square = match base.checked_mul(base) {
        Some(s) => s,
        None => {
            proof {
                lemma_quotient_beyond_u64(scale(2 * p), rate as int);
            }
            return None;
        },
    };
    let inverse = square / (rate as u128);
    if inverse > u64::MAX as u128 {
        None
    } else {
        Some(inverse as u64)
    }
}

/// `amount` converted at the rate `rate / 10^precision`, or `None` where the
/// product `amount * rate` or the scale `10^precision` does not fit in a `u128`.
pub fn convert_amount(amount: u128, rate: u64, precision: u32) -> (r: Option<u128>)
    ensures
        match r {
            Some(v) => conversion_fits(amount as int, rate as int, precision as nat)
                && v == converted_amount(amount as int, rate as int, precision as nat),
            None => !conversion_fits(amount as int, rate as int, precision as nat),
        },
{
    let product = match amount.checked_mul(rate as u128) {
        Some(m) => m,
        None => return None,
    };
    let base = match pow10(precision) {
        Some(b) => b,
        None => return None,
    };
    proof {
        lemma_pow_positive(10, precision as nat);
    }
    Some(product / base)
}

} // verus!
