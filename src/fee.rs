use vstd::prelude::*;
use crate::types::{Decimal, DECIMAL_FRACTIONAL};

verus! {

/// The fee on `amount` at rate `percentage`: the product rounded down.
pub open spec fn fee_of(amount: u128, percentage: Decimal) -> int {
    (amount * percentage.atomics) / (DECIMAL_FRACTIONAL as int)
}

/// An amount cut in two: the protocol's fee and what is left for the counterparty.
#[derive(Debug, Clone, Copy, PartialEq, Eq, Structural)]
pub struct FeeSplit {
    pub fee: u128,
    pub remainder: u128,
}

/// Relies on cosmwasm_std's `Uint128 * Decimal`: `amount * atomics / 10^18`
/// rounded down, which panics only when that does not fit in 128 bits.
#[verifier::external_body]
fn mul_decimal(amount: u128, atomics: u128) -> (r: u128)
    requires
        (amount * atomics) / (DECIMAL_FRACTIONAL as int) <= u128::MAX,
    ensures
        r == (amount * atomics) / (DECIMAL_FRACTIONAL as int),
{
    let product = cosmwasm_std::Uint128::new(amount) * cosmwasm_std::Decimal::raw(atomics);
    product.u128()
}

/// For a rate in `[0, 1]` the fee lies between zero and the amount, and fee
/// and remainder add up to the amount.
pub proof fn lemma_fee_within_amount(amount: u128, percentage: Decimal)
    requires
        percentage.at_most_one(),
    ensures
        0 <= fee_of(amount, percentage) <= amount,
        fee_of(amount, percentage) + (amount - fee_of(amount, percentage)) == amount,
{
    let ghost a = amount as int;
    let ghost p = percentage.atomics as int;
    let ghost d = DECIMAL_FRACTIONAL as int;
    assert(0 <= a * p) by (nonlinear_arith)
        requires 0 <= a, 0 <= p;
    assert(a * p <= a * d) by (nonlinear_arith)
        requires 0 <= a, 0 <= p <= d;
    assert((a * p) / d <= (a * d) / d) by (nonlinear_arith)
        requires 0 <= a * p <= a * d, d > 0;
    assert((a * d) / d == a) by (nonlinear_arith)
        requires d > 0;
    assert(0 <= (a * p) / d) by (nonlinear_arith)
        requires 0 <= a * p, d > 0;
}

/// Splits `amount` into the fee at `percentage` and the remainder; `None`
/// when the fee would exceed the amount (a rate above one).
pub fn split_fee(amount: u128, percentage: Decimal) -> (r: Option<FeeSplit>)
    ensures
        r is None <==> fee_of(amount, percentage) > amount,
        r matches Some(s) ==> s.fee == fee_of(amount, percentage) && s.remainder == amount - s.fee,
{
    let ghost a = amount as int;
    let ghost p = percentage.atomics as int;
    let ghost d = DECIMAL_FRACTIONAL as int;
    // Above one, the fee exceeds the amount exactly when the part of the
    // product beyond the amount, `amount * (rate - 1)`, makes a whole unit.
    if percentage.atomics > DECIMAL_FRACTIONAL {
        let excess = percentage.atomics - DECIMAL_FRACTIONAL;
        match amount.checked_mul(excess) {
            None => {
                proof {
                    assert(a * (p - d) > u128::MAX);
                    assert(a * p == a * d + a * (p - d)) by (nonlinear_arith);
                    assert(a * p >= (a + 1) * d) by (nonlinear_arith)
                        requires a * p == a * d + a * (p - d), a * (p - d) > u128::MAX, d == 1_000_000_000_000_000_000int;
                    assert((a * p) / d >= ((a + 1) * d) / d) by (nonlinear_arith)
                        requires a * p >= (a + 1) * d, d > 0;
                    assert(((a + 1) * d) / d == a + 1) by (nonlinear_arith)
                        requires d > 0;
                }
                return None;
            },
            Some(x) => {
                if x >= DECIMAL_FRACTIONAL {
                    proof {
                        assert(a * p == a * d + a * (p - d)) by (nonlinear_arith);
                        assert((a * p) / d >= ((a + 1) * d) / d) by (nonlinear_arith)
                            requires a * p >= (a + 1) * d, d > 0;
                        assert(((a + 1) * d) / d == a + 1) by (nonlinear_arith)
                            requires d > 0;
                    }
                    return None;
                }
                proof {
                    assert(a * p == a * d + a * (p - d)) by (nonlinear_arith);
                    assert((a * p) / d == a) by (nonlinear_arith)
                        requires a * p == a * d + x, 0 <= x < d, d > 0, x == a * (p - d);
                }
            },
        }
    } else {
        proof {
            lemma_fee_within_amount(amount, percentage);
        }
    }
    let fee = mul_decimal(amount, percentage.atomics);
    Some(FeeSplit { fee, remainder: amount - fee })
}

} // verus!
