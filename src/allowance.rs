//! Delegated spending allowances that lapse after a ledger sequence number.
use vstd::prelude::*;
use crate::amount::ContractError;

verus! {

/// A stored allowance: an amount and the last ledger sequence at which it may be spent.
#[derive(Copy, Clone, Debug, PartialEq, Eq, Structural)]
pub struct AllowanceValue {
    pub amount: i128,
    pub expiration_ledger: u32,
}

/// The allowance that no approval has set.
pub open spec fn no_allowance() -> AllowanceValue {
    AllowanceValue { amount: 0, expiration_ledger: 0 }
}

/// What a stored allowance is worth at ledger sequence `sequence`: its amount up to
/// its expiration, zero afterwards, with the expiration kept.
pub open spec fn effective(stored: AllowanceValue, sequence: u32) -> AllowanceValue {
    if stored.expiration_ledger < sequence {
        AllowanceValue { amount: 0, expiration_ledger: stored.expiration_ledger }
    } else {
        stored
    }
}

/// The stored allowance after spending `amount` of it at `sequence`, or
/// `AllowanceError` where the effective allowance is smaller.
pub open spec fn spend_outcome(stored: AllowanceValue, sequence: u32, amount: i128) -> Result<
    AllowanceValue,
    ContractError,
> {
    let eff = effective(stored, sequence);
    if eff.amount < amount {
        Err(ContractError::AllowanceError)
    } else {
        Ok(AllowanceValue { amount: (eff.amount - amount) as i128, expiration_ledger: stored.expiration_ledger })
    }
}

/// Applies expiry to a stored allowance at ledger sequence `sequence`.
pub fn effective_allowance(stored: AllowanceValue, sequence: u32) -> (r: AllowanceValue)
    ensures
        r == effective(stored, sequence),
{
    if stored.expiration_ledger < sequence {
        AllowanceValue { amount: 0, expiration_ledger: stored.expiration_ledger }
    } else {
        stored
    }
}

/// Spends a non-negative amount of an allowance whose stored amount is non-negative.
pub fn spend_allowance(stored: AllowanceValue, sequence: u32, amount: i128) -> (r: Result<
    AllowanceValue,
    ContractError,
>)
    requires
        amount >= 0,
        stored.amount >= 0,
    ensures
        r == spend_outcome(stored, sequence, amount),
        r matches Ok(v) ==> v.amount >= 0,
{
    let eff = effective_allowance(stored, sequence);
    if eff.amount < amount {
        Err(ContractError::AllowanceError)
    } else {
        Ok(AllowanceValue { amount: eff.amount - amount, expiration_ledger: stored.expiration_ledger })
    }
}

} // verus!
