//! Errors and the arithmetic of a single balance.
use vstd::prelude::*;

verus! {

/// Errors reported by the token's operations.
#[derive(Copy, Clone, Debug, PartialEq, Eq, Structural)]
pub enum ContractError {
    /// Required state is missing: the token has not been constructed.
    InternalError,
    /// The token has already been constructed.
    AlreadyInitializedError,
    /// The principal that the operation names did not authorize it.
    UnauthorizedError,
    /// An amount is negative.
    NegativeAmountError,
    /// A debit exceeds the balance.
    BalanceError,
    /// A credit would exceed the range of an amount.
    OverflowError,
    /// A spend exceeds the effective allowance.
    AllowanceError,
}

/// Rejects a negative amount.
pub fn check_nonnegative_amount(amount: i128) -> (r: Result<(), ContractError>)
    ensures
        r == (if amount < 0 {
            Err(ContractError::NegativeAmountError)
        } else {
            Ok(())
        }),
{
    if amount < 0 {
        Err(ContractError::NegativeAmountError)
    } else {
        Ok(())
    }
}

/// The balance after crediting `amount`, or `OverflowError` where it leaves the range of `i128`.
pub open spec fn credit_outcome(balance: i128, amount: i128) -> Result<i128, ContractError> {
    if balance + amount > i128::MAX {
        Err(ContractError::OverflowError)
    } else {
        Ok((balance + amount) as i128)
    }
}

/// The balance after debiting `amount`, or `BalanceError` where the balance is smaller.
pub open spec fn debit_outcome(balance: i128, amount: i128) -> Result<i128, ContractError> {
    if balance < amount {
        Err(ContractError::BalanceError)
    } else {
        Ok((balance - amount) as i128)
    }
}

/// Adds a non-negative amount to a balance, refusing to overflow.
pub fn credit(balance: i128, amount: i128) -> (r: Result<i128, ContractError>)
    requires
        amount >= 0,
    ensures
        r == credit_outcome(balance, amount),
{
    if balance > i128::MAX - amount {
        Err(ContractError::OverflowError)
    } else {
        Ok(balance + amount)
    }
}

/// Takes a non-negative amount from a balance that holds at least that much.
pub fn debit(balance: i128, amount: i128) -> (r: Result<i128, ContractError>)
    requires
        amount >= 0,
    ensures
        r == debit_outcome(balance, amount),
{
    if balance < amount {
        Err(ContractError::BalanceError)
    } else {
        Ok(balance - amount)
    }
}

} // verus!
