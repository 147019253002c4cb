//! The privileged ledger operations over raw maps: mint, burn, batch
//! transfer.

use fungible_ledger::actor::ActorId;
use fungible_ledger::admin::funcs;
use fungible_ledger::admin::utils::{Error, ExternalLinks};
use fungible_ledger::admin::AdditionalMeta;
use fungible_ledger::amount::Amount;
use fungible_ledger::maps::BalancesMap;

fn balances_map(content: &[(ActorId, Amount)]) -> BalancesMap {
    let mut map = BalancesMap::new();
    for (k, v) in content {
        map.set(*k, *v);
    }
    map
}

fn additional_meta() -> AdditionalMeta {
    AdditionalMeta {
        description: "Description".to_string(),
        external_links: ExternalLinks {
            image: "image".to_string(),
            website: None,
            telegram: None,
            twitter: None,
            discord: None,
            tokenomics: None,
        },
        max_supply: Amount::from_u128(1_000),
    }
}

fn alice() -> ActorId {
    ActorId::from_u64(1)
}

fn bob() -> ActorId {
    ActorId::from_u64(2)
}

fn charlie() -> ActorId {
    ActorId::from_u64(3)
}

fn dave() -> ActorId {
    ActorId::from_u64(4)
}

#[test]
fn mint() {
    // Creating map
    let mut map = balances_map(&[]);
    let additional_meta = additional_meta();
    let mut total_supply = Amount::from_u128(100);
    let value = Amount::from_u128(100);
    // # Test case #1.
    // Successful Mint
    {
        assert_eq!(
            funcs::mint(&mut map, &additional_meta, &mut total_supply, alice(), value).unwrap(),
            true
        );
        assert_eq!(map.get(&alice()), value);
        assert_eq!(total_supply, Amount::from_u128(200));
    }
    // # Test case #2.
    // Mint with value equal to 0
    {
        assert_eq!(
            funcs::mint(
                &mut map,
                &additional_meta,
                &mut total_supply,
                alice(),
                Amount::zero()
            )
            .unwrap(),
            false
        );
    }
    // # Test case #3.
    // Mint with Error: MaxSupplyReached
    {
        assert_eq!(
            funcs::mint(
                &mut map,
                &additional_meta,
                &mut total_supply,
                alice(),
                Amount::from_u128(1_000_000)
            )
            .err()
            .expect("Ran into Ok value"),
            Error::MaxSupplyReached
        );
    }
}

#[test]
fn burn() {
    // Creating map
    let mut map = balances_map(&[(dave(), Amount::max_value())]);
    let mut total_supply = Amount::from_u128(100);
    let value = Amount::from_u128(100);
    // # Test case #1.
    // Successful Burn
    {
        assert_eq!(
            funcs::burn(&mut map, &mut total_supply, dave(), value).unwrap(),
            true
        );
        let expected_balance = Amount::max_value().checked_sub(value).unwrap();
        assert_eq!(map.get(&dave()), expected_balance);
        assert_eq!(total_supply, Amount::zero());
    }
    // # Test case #2.
    // Burn with value equal to 0
    {
        assert_eq!(
            funcs::burn(&mut map, &mut total_supply, dave(), Amount::zero()).unwrap(),
            false
        );
    }
    // # Test case #3.
    // Burn with Error: Underflow
    {
        assert_eq!(
            funcs::burn(&mut map, &mut total_supply, alice(), value)
                .err()
                .expect("Ran into Ok value"),
            Error::Underflow
        );
    }
}

#[test]
fn transfer_to_users() {
    // Creating map
    let mut map = balances_map(&[(dave(), Amount::max_value())]);
    let value = Amount::from_u128(100);
    let to = vec![alice(), bob(), charlie()];
    // # Test case #1.
    // Successful Transfer to users
    {
        assert_eq!(
            funcs::transfer_to_users(&mut map, dave(), to.clone(), value).unwrap(),
            true
        );
        let needed = Amount::from_u128(300);
        let expected_balance = Amount::max_value().checked_sub(needed).unwrap();
        assert_eq!(map.get(&dave()), expected_balance);
        let expected_balance = value;
        assert_eq!(map.get(&alice()), expected_balance);
        assert_eq!(map.get(&bob()), expected_balance);
        assert_eq!(map.get(&charlie()), expected_balance);
    }
    // # Test case #2.
    // Transfer to users with Error: InsufficientBalance
    {
        assert_eq!(
            funcs::transfer_to_users(&mut map, alice(), to, value)
                .err()
                .expect("Ran into Ok value"),
            Error::InsufficientBalance
        );
    }
}
