//! The pure token ledger: transfers, approvals, allowance-driven spending,
//! zero-value boundaries, zero-elision, and the set-balance escape hatch.

use fungible_ledger::actor::ActorId;
use fungible_ledger::amount::Amount;
use fungible_ledger::erc20;
use fungible_ledger::erc20::Error;
use fungible_ledger::maps::{AllowancesMap, BalancesMap};

fn acct(n: u64) -> ActorId {
    ActorId::from_u64(n)
}

fn ledger(content: &[(ActorId, u128)]) -> erc20::Service {
    let mut service = erc20::Service::new("Token".to_string(), "TOK".to_string(), 12);
    let mut supply: u128 = 0;
    for (k, v) in content {
        service.set_balance(*k, Amount::from_u128(*v));
        supply += v;
    }
    assert_eq!(service.total_supply(), Amount::from_u128(supply));
    service
}

#[test]
fn transfer_moves_and_elides_zero() {
    // balance_of(a) == 100; transfer of the whole balance empties and
    // removes a's entry and credits b in full.
    let a = acct(1);
    let b = acct(2);
    let mut service = ledger(&[(a, 100)]);
    assert_eq!(service.transfer(a, b, Amount::from_u128(100)).unwrap(), true);
    assert_eq!(service.balance_of(a), Amount::zero());
    assert_eq!(service.balance_of(b), Amount::from_u128(100));
    // The debited entry is removed, not stored as zero.
    assert_eq!(service.balances.len(), 1);
    let page = fungible_ledger::admin::funcs::balances(&service.balances, 0, 10);
    assert_eq!(page.len(), 1);
    assert_eq!(page[0].0, b);
}

#[test]
fn zero_value_operations_never_mutate() {
    // transfer(a, b, 0) always reports no mutation and never errors.
    let a = acct(1);
    let b = acct(2);
    let mut service = ledger(&[(a, 5)]);
    assert_eq!(service.transfer(a, b, Amount::zero()).unwrap(), false);
    assert_eq!(service.transfer(b, a, Amount::zero()).unwrap(), false);
    assert_eq!(service.balance_of(a), Amount::from_u128(5));
    assert_eq!(service.balance_of(b), Amount::zero());
    assert_eq!(
        service.from_transfer(b, a, b, Amount::zero()).unwrap(),
        false
    );
}

#[test]
fn transfer_insufficient_balance() {
    let a = acct(1);
    let b = acct(2);
    let mut service = ledger(&[(a, 99)]);
    assert_eq!(
        service.transfer(a, b, Amount::from_u128(100)).unwrap_err(),
        Error::InsufficientBalance
    );
    assert_eq!(service.balance_of(a), Amount::from_u128(99));
    assert_eq!(service.balance_of(b), Amount::zero());
}

#[test]
fn transfer_numeric_overflow() {
    // Crediting an account already at the maximum cannot fit.
    let a = acct(1);
    let b = acct(2);
    let mut balances = BalancesMap::new();
    balances.set(a, Amount::from_u128(7));
    balances.set(b, Amount::max_value());
    assert_eq!(
        erc20::transfer(&mut balances, a, b, Amount::from_u128(7)).unwrap_err(),
        Error::NumericOverflow
    );
    assert_eq!(balances.get(&a), Amount::from_u128(7));
    assert_eq!(balances.get(&b), Amount::max_value());
}

#[test]
fn approve_is_idempotent() {
    // approve(owner, spender, v) twice: the second call reports no change.
    let owner = acct(1);
    let spender = acct(2);
    let mut allowances = AllowancesMap::new();
    let v = Amount::from_u128(41);
    assert_eq!(erc20::approve(&mut allowances, owner, spender, v), true);
    assert_eq!(erc20::approve(&mut allowances, owner, spender, v), false);
    assert_eq!(allowances.get(&owner, &spender), v);
}

#[test]
fn approve_zero_removes_entry() {
    let owner = acct(1);
    let spender = acct(2);
    let mut allowances = AllowancesMap::new();
    // Setting zero where none exists changes nothing.
    assert_eq!(
        erc20::approve(&mut allowances, owner, spender, Amount::zero()),
        false
    );
    assert_eq!(allowances.len(), 0);
    assert_eq!(erc20::approve(&mut allowances, owner, spender, Amount::from_u128(9)), true);
    assert_eq!(allowances.len(), 1);
    // Setting zero removes the stored entry rather than storing zero.
    assert_eq!(
        erc20::approve(&mut allowances, owner, spender, Amount::zero()),
        true
    );
    assert_eq!(allowances.len(), 0);
    assert_eq!(allowances.get(&owner, &spender), Amount::zero());
}

#[test]
fn from_transfer_spends_allowance() {
    let owner = acct(1);
    let spender = acct(2);
    let to = acct(3);
    let mut service = ledger(&[(owner, 100)]);
    assert_eq!(service.approve(owner, spender, Amount::from_u128(60)), true);
    assert_eq!(
        service
            .from_transfer(spender, owner, to, Amount::from_u128(40))
            .unwrap(),
        true
    );
    assert_eq!(service.balance_of(owner), Amount::from_u128(60));
    assert_eq!(service.balance_of(to), Amount::from_u128(40));
    // Every spend decrements the stored allowance.
    assert_eq!(service.allowance(owner, spender), Amount::from_u128(20));
    // Spending beyond the remaining allowance fails, balances intact.
    assert_eq!(
        service
            .from_transfer(spender, owner, to, Amount::from_u128(30))
            .unwrap_err(),
        Error::InsufficientAllowance
    );
    assert_eq!(service.balance_of(owner), Amount::from_u128(60));
    assert_eq!(service.allowance(owner, spender), Amount::from_u128(20));
}

#[test]
fn from_transfer_insufficient_balance() {
    let owner = acct(1);
    let spender = acct(2);
    let to = acct(3);
    let mut service = ledger(&[(owner, 10)]);
    assert_eq!(service.approve(owner, spender, Amount::from_u128(60)), true);
    assert_eq!(
        service
            .from_transfer(spender, owner, to, Amount::from_u128(20))
            .unwrap_err(),
        Error::InsufficientBalance
    );
    // The allowance is not consumed on the error path.
    assert_eq!(service.allowance(owner, spender), Amount::from_u128(60));
    assert_eq!(service.balance_of(owner), Amount::from_u128(10));
}

#[test]
fn set_balance_adjusts_total_supply() {
    let a = acct(1);
    let mut service = ledger(&[(a, 100)]);
    // No-op when the value is unchanged.
    assert_eq!(service.set_balance(a, Amount::from_u128(100)), false);
    // Lowering the balance lowers the supply by the difference.
    assert_eq!(service.set_balance(a, Amount::from_u128(40)), true);
    assert_eq!(service.total_supply(), Amount::from_u128(40));
    // Raising it raises the supply.
    assert_eq!(service.set_balance(a, Amount::from_u128(90)), true);
    assert_eq!(service.total_supply(), Amount::from_u128(90));
    // Setting zero removes the entry.
    assert_eq!(service.set_balance(a, Amount::zero()), true);
    assert_eq!(service.total_supply(), Amount::zero());
    assert_eq!(service.balance_of(a), Amount::zero());
}

#[test]
fn metadata_reads() {
    let service = ledger(&[]);
    assert_eq!(service.name(), "Token".to_string());
    assert_eq!(service.symbol(), "TOK".to_string());
    assert_eq!(service.decimals(), 12);
}

#[test]
fn amount_arithmetic() {
    let max = Amount::max_value();
    assert!(max.checked_add(Amount::from_u128(1)).is_none());
    assert_eq!(max.saturating_add(Amount::from_u128(5)), max);
    assert_eq!(
        Amount::zero().saturating_sub(Amount::from_u128(3)),
        Amount::zero()
    );
    assert!(Amount::from_u128(2).checked_sub(Amount::from_u128(3)).is_none());
    // Carry across the 128-bit limb boundary.
    let low_max = Amount::from_u128(u128::MAX);
    let carried = low_max.checked_add(Amount::from_u128(1)).unwrap();
    assert_eq!(carried, Amount::from_limbs(1, 0));
    assert_eq!(carried.checked_sub(Amount::from_u128(1)).unwrap(), low_max);
    assert!(Amount::from_u128(3).lt(&Amount::from_limbs(1, 0)));
    assert!(Amount::from_u128(3).le(&Amount::from_u128(3)));
    assert!(Amount::zero().is_zero());
}
