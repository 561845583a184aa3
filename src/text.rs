use vstd::prelude::*;
use crate::types::{Decimal, DECIMAL_FRACTIONAL};

verus! {

/// The character of the decimal digit `d`.
pub open spec fn digit(d: nat) -> char
    recommends
        d < 10,
{
    seq!['0', '1', '2', '3', '4', '5', '6', '7', '8', '9'][d as int]
}

/// `n` written in decimal, without sign or leading zeros.
pub open spec fn decimal(n: nat) -> Seq<char>
    decreases n,
{
    if n < 10 {
        seq![digit(n)]
    } else {
        decimal(n / 10).push(digit(n % 10))
    }
}

/// The last `places` decimal digits of `n`, zeros in front where `n` is shorter.
pub open spec fn padded(n: nat, places: nat) -> Seq<char>
    decreases places,
{
    if places == 0 {
        seq![]
    } else {
        padded(n / 10, (places - 1) as nat).push(digit(n % 10))
    }
}

/// `s` without the zeros at its end.
pub open spec fn trim_trailing_zeros(s: Seq<char>) -> Seq<char>
    decreases s.len(),
{
    if s.len() > 0 && s.last() == '0' {
        trim_trailing_zeros(s.drop_last())
    } else {
        s
    }
}

/// A fixed-point ratio as text: the whole part and, when the fraction is not
/// zero, a point and its eighteen digits less the trailing zeros ("0.05").
pub open spec fn decimal_text(d: Decimal) -> Seq<char> {
    let whole = d.atomics / DECIMAL_FRACTIONAL;
    let fraction = d.atomics % DECIMAL_FRACTIONAL;
    if fraction == 0 {
        decimal(whole as nat)
    } else {
        decimal(whole as nat) + seq!['.'] + trim_trailing_zeros(padded(fraction as nat, 18))
    }
}

/// Relies on `u128`'s `Display` (through `ToString`): the number in decimal,
/// without sign or leading zeros.
#[verifier::external_body]
pub(crate) fn amount_text(n: u128) -> (r: String)
    ensures
        r@ == decimal(n as nat),
{
    n.to_string()
}

/// Relies on cosmwasm_std's `Display` for `Decimal`: the whole part, then,
/// when the fraction is not zero, a point and the fraction padded to eighteen
/// digits with its trailing zeros removed.
#[verifier::external_body]
pub(crate) fn rate_text(d: Decimal) -> (r: String)
    ensures
        r@ == decimal_text(d),
{
    cosmwasm_std::Decimal::raw(d.atomics).to_string()
}

} // verus!
