use sep41::allowance::{effective_allowance, spend_allowance, AllowanceValue};
use sep41::amount::{check_nonnegative_amount, credit, debit, ContractError};
use sep41::token::{Address, Env, Token, TokenEvent};

fn addr(id: u64) -> Address {
    Address { id }
}

fn env(sequence: u32, authorized: &[Address]) -> Env {
    Env { sequence, authorized: authorized.to_vec() }
}

fn constructed(admin: Address) -> Token {
    let mut t = Token::new();
    t.__constructor(admin, 7, "X".to_string(), "X".to_string()).unwrap();
    t
}

#[test]
fn scenario_mint_approve_transfer_from_and_expiry() {
    let a = addr(1);
    let u1 = addr(11);
    let u2 = addr(12);
    let u3 = addr(13);
    let mut t = constructed(a);
    assert_eq!(
        t.mint(&env(1, &[a]), u1, 100),
        Ok(TokenEvent::Mint { admin: a, to: u1, amount: 100 })
    );
    assert_eq!(t.balance(u1), 100);
    assert_eq!(
        t.approve(&env(1, &[u1]), u1, u2, 40, 1000),
        Ok(TokenEvent::Approve { from: u1, spender: u2, amount: 40, expiration_ledger: 1000 })
    );
    assert_eq!(
        t.transfer_from(&env(500, &[u2]), u2, u1, u3, 30),
        Ok(TokenEvent::Transfer { from: u1, to: u3, amount: 30 })
    );
    assert_eq!(t.balance(u1), 70);
    assert_eq!(t.balance(u3), 30);
    assert_eq!(t.allowance(&env(500, &[]), u1, u2), 10);
    assert_eq!(
        t.transfer_from(&env(1500, &[u2]), u2, u1, u3, 5),
        Err(ContractError::AllowanceError)
    );
    assert_eq!(t.allowance(&env(1500, &[]), u1, u2), 0);
    assert_eq!(t.allowance(&env(1000, &[]), u1, u2), 10);
    assert_eq!(t.balance(u1), 70);
    assert_eq!(t.balance(u3), 30);
}

#[test]
fn uncredited_balance_is_zero() {
    let t = constructed(addr(1));
    assert_eq!(t.balance(addr(42)), 0);
    assert_eq!(Token::new().balance(addr(1)), 0);
}

#[test]
fn transfer_moves_amount_and_keeps_sum() {
    let a = addr(1);
    let (x, y) = (addr(2), addr(3));
    let mut t = constructed(a);
    t.mint(&env(1, &[a]), x, 50).unwrap();
    t.mint(&env(1, &[a]), y, 5).unwrap();
    assert_eq!(
        t.transfer(&env(1, &[x]), x, y, 20),
        Ok(TokenEvent::Transfer { from: x, to: y, amount: 20 })
    );
    assert_eq!(t.balance(x), 30);
    assert_eq!(t.balance(y), 25);
    assert_eq!(t.balance(x) + t.balance(y), 55);
}

#[test]
fn transfer_to_self_keeps_balance() {
    let a = addr(1);
    let x = addr(2);
    let mut t = constructed(a);
    t.mint(&env(1, &[a]), x, 10).unwrap();
    assert!(t.transfer(&env(1, &[x]), x, x, 10).is_ok());
    assert_eq!(t.balance(x), 10);
}

#[test]
fn transfer_failures_leave_balances() {
    let a = addr(1);
    let (x, y) = (addr(2), addr(3));
    let mut t = constructed(a);
    t.mint(&env(1, &[a]), x, 10).unwrap();
    assert_eq!(t.transfer(&env(1, &[x]), x, y, -1), Err(ContractError::NegativeAmountError));
    assert_eq!(t.transfer(&env(1, &[x]), x, y, 11), Err(ContractError::BalanceError));
    assert_eq!(t.transfer(&env(1, &[y]), x, y, 1), Err(ContractError::UnauthorizedError));
    assert_eq!(t.balance(x), 10);
    assert_eq!(t.balance(y), 0);
}

#[test]
fn transfer_overflow_is_refused() {
    let a = addr(1);
    let (x, y) = (addr(2), addr(3));
    let mut t = constructed(a);
    t.mint(&env(1, &[a]), x, 1).unwrap();
    t.mint(&env(1, &[a]), y, i128::MAX).unwrap();
    assert_eq!(t.transfer(&env(1, &[x]), x, y, 1), Err(ContractError::OverflowError));
    assert_eq!(t.mint(&env(1, &[a]), y, 1), Err(ContractError::OverflowError));
    assert_eq!(t.balance(x), 1);
    assert_eq!(t.balance(y), i128::MAX);
}

#[test]
fn approve_overwrites_and_expires() {
    let (o, s) = (addr(2), addr(3));
    let mut t = constructed(addr(1));
    t.approve(&env(1, &[o]), o, s, 40, 100).unwrap();
    t.approve(&env(1, &[o]), o, s, 7, 200).unwrap();
    assert_eq!(t.allowance(&env(200, &[]), o, s), 7);
    assert_eq!(t.allowance(&env(201, &[]), o, s), 0);
    assert_eq!(t.approve(&env(1, &[o]), o, s, -3, 200), Err(ContractError::NegativeAmountError));
    assert_eq!(t.approve(&env(1, &[s]), o, s, 3, 200), Err(ContractError::UnauthorizedError));
    assert_eq!(t.allowance(&env(1, &[]), o, s), 7);
}

#[test]
fn approve_in_the_past_is_zero_at_once() {
    let (o, s) = (addr(2), addr(3));
    let mut t = constructed(addr(1));
    assert!(t.approve(&env(50, &[o]), o, s, 40, 10).is_ok());
    assert_eq!(t.allowance(&env(50, &[]), o, s), 0);
}

#[test]
fn transfer_from_decrements_allowance() {
    let a = addr(1);
    let (o, s, r) = (addr(2), addr(3), addr(4));
    let mut t = constructed(a);
    t.mint(&env(1, &[a]), o, 100).unwrap();
    t.approve(&env(1, &[o]), o, s, 60, 100).unwrap();
    t.transfer_from(&env(10, &[s]), s, o, r, 25).unwrap();
    assert_eq!(t.allowance(&env(10, &[]), o, s), 35);
    assert_eq!(
        t.transfer_from(&env(10, &[s]), s, o, r, 36),
        Err(ContractError::AllowanceError)
    );
    assert_eq!(
        t.transfer_from(&env(10, &[o]), s, o, r, 1),
        Err(ContractError::UnauthorizedError)
    );
    assert_eq!(t.allowance(&env(10, &[]), o, s), 35);
    assert_eq!(t.balance(o), 75);
    assert_eq!(t.balance(r), 25);
}

#[test]
fn transfer_from_beyond_balance_keeps_allowance() {
    let a = addr(1);
    let (o, s, r) = (addr(2), addr(3), addr(4));
    let mut t = constructed(a);
    t.mint(&env(1, &[a]), o, 5).unwrap();
    t.approve(&env(1, &[o]), o, s, 60, 100).unwrap();
    assert_eq!(t.transfer_from(&env(10, &[s]), s, o, r, 6), Err(ContractError::BalanceError));
    assert_eq!(t.allowance(&env(10, &[]), o, s), 60);
    assert_eq!(t.balance(o), 5);
}

#[test]
fn burn_and_burn_from() {
    let a = addr(1);
    let (o, s) = (addr(2), addr(3));
    let mut t = constructed(a);
    t.mint(&env(1, &[a]), o, 50).unwrap();
    assert_eq!(t.burn(&env(1, &[o]), o, 10), Ok(TokenEvent::Burn { from: o, amount: 10 }));
    assert_eq!(t.balance(o), 40);
    assert_eq!(t.burn(&env(1, &[o]), o, 41), Err(ContractError::BalanceError));
    assert_eq!(t.burn(&env(1, &[o]), o, -1), Err(ContractError::NegativeAmountError));
    t.approve(&env(1, &[o]), o, s, 15, 100).unwrap();
    assert_eq!(t.burn_from(&env(2, &[s]), s, o, 15), Ok(TokenEvent::Burn { from: o, amount: 15 }));
    assert_eq!(t.balance(o), 25);
    assert_eq!(t.allowance(&env(2, &[]), o, s), 0);
    assert_eq!(t.burn_from(&env(2, &[s]), s, o, 1), Err(ContractError::AllowanceError));
}

#[test]
fn mint_is_admin_only() {
    let a = addr(1);
    let u = addr(2);
    let mut t = constructed(a);
    assert_eq!(t.mint(&env(1, &[u]), u, 10), Err(ContractError::UnauthorizedError));
    assert_eq!(t.balance(u), 0);
    assert_eq!(t.mint(&env(1, &[a]), u, -10), Err(ContractError::NegativeAmountError));
    assert!(t.mint(&env(1, &[a]), u, 10).is_ok());
    assert_eq!(t.balance(u), 10);
}

#[test]
fn set_admin_hands_over_the_role() {
    let (a, b, c) = (addr(1), addr(2), addr(3));
    let mut t = constructed(a);
    assert_eq!(t.set_admin(&env(1, &[b]), b), Err(ContractError::UnauthorizedError));
    assert_eq!(
        t.set_admin(&env(1, &[a]), b),
        Ok(TokenEvent::SetAdmin { admin: a, new_admin: b })
    );
    assert_eq!(t.admin(), Ok(b));
    assert_eq!(t.mint(&env(1, &[a]), c, 1), Err(ContractError::UnauthorizedError));
    assert_eq!(t.set_admin(&env(1, &[a]), a), Err(ContractError::UnauthorizedError));
    assert!(t.mint(&env(1, &[b]), c, 1).is_ok());
    assert_eq!(t.balance(c), 1);
}

#[test]
fn construct_only_once() {
    let (a, b) = (addr(1), addr(2));
    let mut t = Token::new();
    assert_eq!(t.admin(), Err(ContractError::InternalError));
    assert_eq!(t.decimals(), Err(ContractError::InternalError));
    assert_eq!(t.name(), Err(ContractError::InternalError));
    assert_eq!(t.symbol(), Err(ContractError::InternalError));
    assert_eq!(t.mint(&env(1, &[a]), a, 1), Err(ContractError::InternalError));
    assert_eq!(t.set_admin(&env(1, &[a]), b), Err(ContractError::InternalError));
    assert_eq!(t.__constructor(a, 7, "Token".to_string(), "TK".to_string()), Ok(()));
    assert_eq!(
        t.__constructor(b, 2, "Other".to_string(), "OT".to_string()),
        Err(ContractError::AlreadyInitializedError)
    );
    assert_eq!(t.admin(), Ok(a));
    assert_eq!(t.decimals(), Ok(7));
    assert_eq!(t.name(), Ok("Token".to_string()));
    assert_eq!(t.symbol(), Ok("TK".to_string()));
}

#[test]
fn value_level_rules() {
    assert_eq!(check_nonnegative_amount(0), Ok(()));
    assert_eq!(check_nonnegative_amount(-5), Err(ContractError::NegativeAmountError));
    assert_eq!(credit(5, 7), Ok(12));
    assert_eq!(credit(i128::MAX, 1), Err(ContractError::OverflowError));
    assert_eq!(debit(5, 5), Ok(0));
    assert_eq!(debit(5, 6), Err(ContractError::BalanceError));
    let stored = AllowanceValue { amount: 9, expiration_ledger: 20 };
    assert_eq!(effective_allowance(stored, 20), stored);
    assert_eq!(
        effective_allowance(stored, 21),
        AllowanceValue { amount: 0, expiration_ledger: 20 }
    );
    assert_eq!(
        spend_allowance(stored, 3, 4),
        Ok(AllowanceValue { amount: 5, expiration_ledger: 20 })
    );
    assert_eq!(spend_allowance(stored, 21, 1), Err(ContractError::AllowanceError));
}
