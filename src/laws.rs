//! Properties that relate the token's operations to each other.
use vstd::prelude::*;
use crate::amount::ContractError;
use crate::allowance::AllowanceValue;
use crate::token::{Address, Env, MetadataView, TokenEvent, TokenView};

verus! {

/// An account that no operation has credited holds zero: from a zero balance, every
/// successful operation that does not credit the account leaves it at zero.
pub proof fn law_uncredited_balance_stays_zero(
    v: TokenView,
    e: Env,
    a: Address,
    spender: Address,
    from: Address,
    to: Address,
    amount: i128,
    expiration_ledger: u32,
    new_admin: Address,
)
    requires
        v.balance(a) == 0,
    ensures
        v.approve_outcome(e, from, spender, amount, expiration_ledger) is Ok ==> v.approved(
            from,
            spender,
            amount,
            expiration_ledger,
        ).balance(a) == 0,
        v.transfer_outcome(e, from, to, amount) is Ok && to != a ==> v.transferred(
            from,
            to,
            amount,
        ).balance(a) == 0,
        v.transfer_from_outcome(e, spender, from, to, amount) is Ok && to != a ==> v.allowance_spent(
            from,
            spender,
            e.sequence,
            amount,
        ).transferred(from, to, amount).balance(a) == 0,
        v.burn_outcome(e, from, amount) is Ok ==> v.debited(from, amount).balance(a) == 0,
        v.burn_from_outcome(e, spender, from, amount) is Ok ==> v.allowance_spent(
            from,
            spender,
            e.sequence,
            amount,
        ).debited(from, amount).balance(a) == 0,
        v.mint_outcome(e, to, amount) is Ok && to != a ==> v.credited(to, amount).balance(a) == 0,
        v.set_admin_outcome(e, new_admin) is Ok ==> v.with_admin(new_admin).balance(a) == 0,
{
}

/// A successful transfer between two accounts takes `amount` from the sender, gives it to
/// the receiver, keeps their sum, and touches no other balance; to oneself it changes nothing.
pub proof fn law_transfer_moves_amount(v: TokenView, e: Env, from: Address, to: Address, amount: i128)
    requires
        v.transfer_outcome(e, from, to, amount) is Ok,
    ensures
        ({
            let w = v.transferred(from, to, amount);
            &&& from != to ==> w.balance(from) == v.balance(from) - amount
            &&& from != to ==> w.balance(to) == v.balance(to) + amount
            &&& w.balance(from) + w.balance(to) == v.balance(from) + v.balance(to)
            &&& from == to ==> w.balance(from) == v.balance(from)
            &&& forall|c: Address| c != from && c != to ==> w.balance(c) == v.balance(c)
        }),
{
}

/// A transfer of a negative amount, or of more than the sender holds, fails.
pub proof fn law_transfer_rejects(v: TokenView, e: Env, from: Address, to: Address, amount: i128)
    requires
        amount < 0 || amount > v.balance(from),
    ensures
        v.transfer_outcome(e, from, to, amount) is Err,
{
}

/// After a successful approval the allowance is the approved amount up to the expiration
/// ledger and zero afterwards, while the stored amount stays the approved one.
pub proof fn law_approve_then_allowance(
    v: TokenView,
    e: Env,
    from: Address,
    spender: Address,
    amount: i128,
    expiration_ledger: u32,
    sequence: u32,
)
    requires
        v.approve_outcome(e, from, spender, amount, expiration_ledger) is Ok,
    ensures
        ({
            let w = v.approved(from, spender, amount, expiration_ledger);
            &&& sequence <= expiration_ledger ==> w.allowance(from, spender, sequence) == amount
            &&& sequence > expiration_ledger ==> w.allowance(from, spender, sequence) == 0
            &&& w.stored_allowance(from, spender) == (AllowanceValue {
                amount,
                expiration_ledger,
            })
        }),
{
}

/// A successful delegated transfer lowers the allowance by exactly the amount spent, and
/// one that asks for more than the effective allowance fails.
pub proof fn law_transfer_from_spends_allowance(
    v: TokenView,
    e: Env,
    spender: Address,
    from: Address,
    to: Address,
    amount: i128,
)
    ensures
        amount > v.allowance(from, spender, e.sequence) ==> v.transfer_from_outcome(
            e,
            spender,
            from,
            to,
            amount,
        ) is Err,
        v.transfer_from_outcome(e, spender, from, to, amount) is Ok ==> ({
            let w = v.allowance_spent(from, spender, e.sequence, amount).transferred(from, to, amount);
            &&& w.stored_allowance(from, spender).amount == v.allowance(from, spender, e.sequence) - amount
            &&& e.sequence <= v.stored_allowance(from, spender).expiration_ledger
                ==> w.stored_allowance(from, spender).amount == v.stored_allowance(from, spender).amount - amount
            &&& w.stored_allowance(from, spender).expiration_ledger == v.stored_allowance(
                from,
                spender,
            ).expiration_ledger
        }),
{
}

/// Minting needs the administrator's authorization, and a successful mint raises the
/// receiver's balance by the amount.
pub proof fn law_mint_admin_only(v: TokenView, e: Env, admin: Address, to: Address, amount: i128)
    requires
        v.admin == Some(admin),
    ensures
        !e.authorizes(admin) ==> v.mint_outcome(e, to, amount) == Err::<
            TokenEvent,
            ContractError,
        >(ContractError::UnauthorizedError),
        v.mint_outcome(e, to, amount) is Ok ==> v.credited(to, amount).balance(to) == v.balance(to)
            + amount,
{
}

/// After the administrator's role is handed over, minting and handing it over again need
/// the new administrator's authorization; the previous one's no longer suffices.
pub proof fn law_set_admin_hands_over(
    v: TokenView,
    e: Env,
    new_admin: Address,
    later: Env,
    to: Address,
    amount: i128,
    next_admin: Address,
)
    requires
        v.set_admin_outcome(e, new_admin) is Ok,
        !later.authorizes(new_admin),
    ensures
        v.with_admin(new_admin).admin == Some(new_admin),
        v.with_admin(new_admin).mint_outcome(later, to, amount) == Err::<
            TokenEvent,
            ContractError,
        >(ContractError::UnauthorizedError),
        v.with_admin(new_admin).set_admin_outcome(later, next_admin) == Err::<
            TokenEvent,
            ContractError,
        >(ContractError::UnauthorizedError),
{
}

/// Construction succeeds once: on a constructed instance it fails with
/// `AlreadyInitializedError`, keeping the administrator and the metadata.
pub proof fn law_construct_once(v: TokenView, admin: Address, metadata: MetadataView)
    requires
        v.construct_outcome() is Ok,
    ensures
        v.constructed(admin, metadata).construct_outcome() == Err::<(), ContractError>(
            ContractError::AlreadyInitializedError,
        ),
        v.constructed(admin, metadata).admin == Some(admin),
        v.constructed(admin, metadata).metadata == Some(metadata),
{
}

} // verus!
