use vstd::prelude::*;
use crate::types::Coin;

verus! {

/// Why an attached or deposited payment does not match what a leg asks for.
#[allow(inconsistent_fields)]
#[derive(Debug, PartialEq, Eq)]
pub enum FundsError {
    /// Not exactly one coin was attached.
    FundsNotFound {},
    /// The payment is of another denomination (or token symbol).
    InvalidDenom { got: String, expected: String },
    /// The payment is of another amount.
    InvalidFunds { got: u128, expected: u128 },
}

/// What checking the attached `funds` against the `expected` coin gives.
pub open spec fn single_coin_outcome(funds: Seq<Coin>, expected: Coin) -> Result<(), FundsError> {
    if funds.len() != 1 {
        Err(FundsError::FundsNotFound {  })
    } else if funds[0].denom@ != expected.denom@ {
        Err(FundsError::InvalidDenom { got: funds[0].denom, expected: expected.denom })
    } else if funds[0].amount != expected.amount {
        Err(FundsError::InvalidFunds { got: funds[0].amount, expected: expected.amount })
    } else {
        Ok(())
    }
}

/// Checks that exactly one coin is attached and that it equals `expected`.
pub fn check_single_coin(funds: &Vec<Coin>, expected: &Coin) -> (r: Result<(), FundsError>)
    ensures
        r == single_coin_outcome(funds@, *expected),
        r is Ok <==> (funds@.len() == 1 && funds@[0].denom@ == expected.denom@
            && funds@[0].amount == expected.amount),
{
    if funds.len() != 1 {
        return Err(FundsError::FundsNotFound {  });
    }
    let paid = &funds[0];
    if paid.denom != expected.denom {
        return Err(
            FundsError::InvalidDenom { got: paid.denom.clone(), expected: expected.denom.clone() },
        );
    }
    if paid.amount != expected.amount {
        return Err(FundsError::InvalidFunds { got: paid.amount, expected: expected.amount });
    }
    Ok(())
}

} // verus!
