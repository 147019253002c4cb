//! The assembled program: initialization, role gating, the pause circuit
//! breaker, and the privileged entry points end to end.

use fungible_ledger::actor::ActorId;
use fungible_ledger::admin::utils::{Error, ExternalLinks, Init, InitError, Role};
use fungible_ledger::amount::Amount;
use fungible_ledger::pausable;
use fungible_ledger::roles;
use fungible_ledger::roles::RoleKind;
use fungible_ledger::Program;

fn acct(n: u64) -> ActorId {
    ActorId::from_u64(n)
}

fn links() -> ExternalLinks {
    ExternalLinks {
        image: "image".to_string(),
        website: Some("https://example.invalid".to_string()),
        telegram: None,
        twitter: None,
        discord: None,
        tokenomics: None,
    }
}

fn init(admin: ActorId, initial: u128, max: u128) -> Init {
    Init {
        name: "Token".to_string(),
        symbol: "TOK".to_string(),
        decimals: 12,
        description: "A test deployment".to_string(),
        external_links: links(),
        initial_supply: Amount::from_u128(initial),
        max_supply: Amount::from_u128(max),
        admin_id: admin,
    }
}

#[test]
fn init_validates_configuration() {
    let admin = acct(1);
    // initial_supply above the cap is a fatal configuration error.
    assert_eq!(
        Program::new(init(admin, 2_000, 1_000)).err().unwrap(),
        InitError::SupplyError
    );
    // A description over 500 characters is too.
    let mut bad = init(admin, 0, 1_000);
    bad.description = "x".repeat(501);
    assert_eq!(Program::new(bad).err().unwrap(), InitError::DescriptionError);
    // A 500-character description is accepted.
    let mut ok = init(admin, 0, 1_000);
    ok.description = "y".repeat(500);
    assert!(Program::new(ok).is_ok());
}

#[test]
fn init_seeds_supply_and_roles() {
    let admin = acct(1);
    let program = Program::new(init(admin, 250, 1_000)).unwrap();
    let erc20 = program.erc20();
    assert_eq!(erc20.balance_of(admin), Amount::from_u128(250));
    assert_eq!(erc20.total_supply(), Amount::from_u128(250));
    assert!(!program.pausable().is_paused());
    let role_names = program.roles().roles();
    assert_eq!(role_names.len(), 4);
    assert!(role_names.contains(&"PauseAdmin".to_string()));
    assert!(role_names.contains(&"FungibleAdmin".to_string()));
    assert_eq!(
        program.roles().has_role(admin, &"FungibleMinter".to_string()),
        Ok(true)
    );
    assert_eq!(program.admin().max_supply(), Amount::from_u128(1_000));
    assert_eq!(program.admin().description(), "A test deployment".to_string());
    assert_eq!(
        program.admin().external_links().website,
        Some("https://example.invalid".to_string())
    );
}

#[test]
fn mint_respects_supply_cap() {
    // Empty balances; mint 100 under a cap of 1000, then 950 more fails
    // with MaxSupplyReached leaving the state unchanged.
    let admin = acct(1);
    let a = acct(2);
    let mut program = Program::new(init(admin, 0, 1_000)).unwrap();
    assert_eq!(
        program.service.mint(admin, a, Amount::from_u128(100)).unwrap(),
        true
    );
    assert_eq!(program.erc20().balance_of(a), Amount::from_u128(100));
    assert_eq!(program.erc20().total_supply(), Amount::from_u128(100));
    assert_eq!(
        program
            .service
            .mint(admin, a, Amount::from_u128(950))
            .unwrap_err(),
        Error::MaxSupplyReached
    );
    assert_eq!(program.erc20().total_supply(), Amount::from_u128(100));
    assert_eq!(program.erc20().balance_of(a), Amount::from_u128(100));
}

#[test]
fn mint_and_burn_zero_are_no_ops() {
    let admin = acct(1);
    let a = acct(2);
    let mut program = Program::new(init(admin, 10, 1_000)).unwrap();
    assert_eq!(program.service.mint(admin, a, Amount::zero()).unwrap(), false);
    assert_eq!(program.service.burn(admin, admin, Amount::zero()).unwrap(), false);
    assert_eq!(program.erc20().total_supply(), Amount::from_u128(10));
}

#[test]
fn burn_via_admin_service() {
    let admin = acct(1);
    let mut program = Program::new(init(admin, 100, 1_000)).unwrap();
    assert_eq!(
        program.service.burn(admin, admin, Amount::from_u128(60)).unwrap(),
        true
    );
    assert_eq!(program.erc20().balance_of(admin), Amount::from_u128(40));
    assert_eq!(program.erc20().total_supply(), Amount::from_u128(40));
    // A non-burner caller is rejected without mutating anything.
    let stranger = acct(9);
    assert_eq!(
        program
            .service
            .burn(stranger, admin, Amount::from_u128(1))
            .unwrap_err(),
        Error::BadOrigin
    );
    assert_eq!(program.erc20().total_supply(), Amount::from_u128(40));
}

#[test]
fn unknown_role_then_grant() {
    // On a fresh role store the minter role is unregistered, so the
    // authorization check fails with UnknownRole; after registration and a
    // grant it passes.
    let acct_id = acct(5);
    let mut service = roles::Service::seed();
    assert_eq!(
        service.ensure_has_role(acct_id, RoleKind::FungibleMinter),
        Err(roles::Error::UnknownRole)
    );
    assert_eq!(service.register_role(RoleKind::FungibleMinter), Ok(()));
    assert_eq!(
        service.ensure_has_role(acct_id, RoleKind::FungibleMinter),
        Err(roles::Error::BadOrigin)
    );
    assert_eq!(service.grant_role(acct_id, RoleKind::FungibleMinter), Ok(true));
    assert_eq!(service.ensure_has_role(acct_id, RoleKind::FungibleMinter), Ok(()));
}

#[test]
fn grant_and_remove_role_round_trip() {
    // grant then remove leaves the role unheld; neither call errors while
    // the role is registered.
    let a = acct(5);
    let mut service = roles::Service::seed();
    assert_eq!(service.register_role(RoleKind::FungibleBurner), Ok(()));
    // Registering the same role again is a no-op success.
    assert_eq!(service.register_role(RoleKind::FungibleBurner), Ok(()));
    assert_eq!(service.grant_role(a, RoleKind::FungibleBurner), Ok(true));
    // Granting a held role reports no change.
    assert_eq!(service.grant_role(a, RoleKind::FungibleBurner), Ok(false));
    assert_eq!(service.remove_role(a, RoleKind::FungibleBurner), Ok(true));
    assert!(!service.holds_role(a, RoleKind::FungibleBurner));
    assert_eq!(
        service.has_role_by_name(a, &"FungibleBurner".to_string()),
        Ok(false)
    );
    // Removing an unheld role reports no change.
    assert_eq!(service.remove_role(a, RoleKind::FungibleBurner), Ok(false));
}

#[test]
fn admin_grants_and_removes_roles() {
    let admin = acct(1);
    let a = acct(2);
    let mut program = Program::new(init(admin, 0, 1_000)).unwrap();
    // Only an admin-role holder may grant.
    assert_eq!(
        program.service.grant_role(a, a, Role::Minter).unwrap_err(),
        Error::BadOrigin
    );
    assert_eq!(program.service.grant_role(admin, a, Role::Minter).unwrap(), true);
    assert_eq!(
        program.service.mint(a, a, Amount::from_u128(5)).unwrap(),
        true
    );
    assert_eq!(program.service.remove_role(admin, a, Role::Minter).unwrap(), true);
    assert_eq!(
        program.service.mint(a, a, Amount::from_u128(5)).unwrap_err(),
        Error::BadOrigin
    );
}

#[test]
fn pause_gates_transfers() {
    // Active state: a non-pause-admin caller fails BadOrigin, state stays
    // Active; the pause admin engages the breaker; a transfer then fails
    // Paused.
    let admin = acct(1);
    let stranger = acct(2);
    let mut program = Program::new(init(admin, 100, 1_000)).unwrap();
    let service = &mut program.service;
    assert_eq!(
        service
            .aggregated_service
            .pausable_service
            .pause(&service.roles_service, stranger),
        Err(roles::Error::BadOrigin)
    );
    assert!(!service.aggregated_service.pausable_service.is_paused());
    assert_eq!(
        service
            .aggregated_service
            .pausable_service
            .pause(&service.roles_service, admin),
        Ok(true)
    );
    assert!(service.aggregated_service.pausable_service.is_paused());
    // Pausing again reports no change.
    assert_eq!(
        service
            .aggregated_service
            .pausable_service
            .pause(&service.roles_service, admin),
        Ok(false)
    );
    assert_eq!(
        service
            .aggregated_service
            .transfer(admin, stranger, Amount::from_u128(10))
            .unwrap_err(),
        Error::Paused
    );
    // Mint and reserve are gated too.
    assert_eq!(
        service.mint(admin, stranger, Amount::from_u128(1)).unwrap_err(),
        Error::Paused
    );
    assert_eq!(service.balances_reserve(4).unwrap_err(), Error::Paused);
    // Unpause restores mutation.
    assert_eq!(
        service
            .aggregated_service
            .pausable_service
            .unpause(&service.roles_service, admin),
        Ok(true)
    );
    assert_eq!(
        service
            .aggregated_service
            .transfer(admin, stranger, Amount::from_u128(10))
            .unwrap(),
        true
    );
}

#[test]
fn pause_state_machine() {
    let mut state = pausable::State::Active;
    assert!(!state.paused());
    assert_eq!(pausable::pause(&mut state), true);
    assert!(state.paused());
    assert_eq!(pausable::pause(&mut state), false);
    assert_eq!(pausable::unpause(&mut state), true);
    assert!(!state.paused());
    assert_eq!(pausable::unpause(&mut state), false);
    state.switch();
    assert!(state.paused());
}

#[test]
fn delegate_admin_reassigns_pause_role() {
    let admin = acct(1);
    let next = acct(2);
    let mut program = Program::new(init(admin, 0, 1_000)).unwrap();
    let service = &mut program.service;
    // Delegating to oneself is refused without an error.
    assert_eq!(
        service
            .aggregated_service
            .pausable_service
            .delegate_admin(&mut service.roles_service, admin, admin),
        Ok(false)
    );
    assert_eq!(
        service
            .aggregated_service
            .pausable_service
            .delegate_admin(&mut service.roles_service, admin, next),
        Ok(true)
    );
    assert!(!service.roles_service.holds_role(admin, RoleKind::PauseAdmin));
    assert!(service.roles_service.holds_role(next, RoleKind::PauseAdmin));
    // The old holder can no longer delegate.
    assert_eq!(
        service
            .aggregated_service
            .pausable_service
            .delegate_admin(&mut service.roles_service, admin, acct(3)),
        Err(roles::Error::BadOrigin)
    );
}

#[test]
fn batch_transfer_is_all_or_nothing() {
    // A batch of three payments of 100 each needs 300; a balance of 250
    // fails InsufficientBalance and no recipient balance changes.
    let admin = acct(1);
    let mut program = Program::new(init(admin, 250, 1_000)).unwrap();
    let to = vec![acct(2), acct(3), acct(4)];
    assert_eq!(
        program
            .service
            .transfer_to_users(admin, to.clone(), Amount::from_u128(100))
            .unwrap_err(),
        Error::InsufficientBalance
    );
    for r in &to {
        assert_eq!(program.erc20().balance_of(*r), Amount::zero());
    }
    assert_eq!(program.erc20().balance_of(admin), Amount::from_u128(250));
    // With 50 each (150 in all) it succeeds in full.
    assert_eq!(
        program
            .service
            .transfer_to_users(admin, to.clone(), Amount::from_u128(50))
            .unwrap(),
        true
    );
    for r in &to {
        assert_eq!(program.erc20().balance_of(*r), Amount::from_u128(50));
    }
    assert_eq!(program.erc20().balance_of(admin), Amount::from_u128(100));
    assert_eq!(program.erc20().total_supply(), Amount::from_u128(250));
}

#[test]
fn kill_requires_admin_role() {
    let admin = acct(1);
    let stranger = acct(2);
    let heir = acct(3);
    let program = Program::new(init(admin, 0, 1_000)).unwrap();
    assert_eq!(
        program.service.kill(stranger, heir).unwrap_err(),
        Error::BadOrigin
    );
    assert!(program.service.kill(admin, heir).is_ok());
}

#[test]
fn maps_introspection_and_reserve() {
    let admin = acct(1);
    let mut program = Program::new(init(admin, 100, 1_000)).unwrap();
    assert_eq!(
        program
            .service
            .aggregated_service
            .approve(admin, acct(2), Amount::from_u128(3))
            .unwrap(),
        true
    );
    let ((a_len, a_cap), (b_len, b_cap)) = program.service.maps_data();
    assert_eq!(a_len, 1);
    assert_eq!(b_len, 1);
    assert!(a_cap >= a_len);
    assert!(b_cap >= b_len);
    assert!(program.service.balances_reserve(64).is_ok());
    assert!(program.service.allowances_reserve(64).is_ok());
    let ((_, a_cap2), (_, b_cap2)) = program.service.maps_data();
    assert!(a_cap2 >= 1);
    assert!(b_cap2 >= 1);
    // Reserving changes nothing observable.
    assert_eq!(program.erc20().balance_of(admin), Amount::from_u128(100));
    // Paging the maps.
    let balances_page = program.service.balances(0, 10);
    assert_eq!(balances_page.len(), 1);
    assert_eq!(balances_page[0], (admin, Amount::from_u128(100)));
    let allowances_page = program.service.allowances(0, 10);
    assert_eq!(allowances_page.len(), 1);
    assert_eq!(allowances_page[0], (admin, acct(2), Amount::from_u128(3)));
    assert_eq!(program.service.balances(1, 10).len(), 0);
    assert_eq!(program.service.allowances(5, 2).len(), 0);
}
