//! A fungible-asset ledger with role-gated administration and an emergency
//! pause gate: token balances, allowances and total supply with conservation
//! invariants, a role registry gating every mutating operation, and a
//! two-state circuit breaker that can suspend mutation globally.

use vstd::prelude::*;

pub mod actor;
pub mod admin;
pub mod aggregated;
pub mod amount;
pub mod erc20;
pub mod maps;
pub mod pausable;
pub mod roles;

use crate::actor::ActorId;
use crate::admin::utils::{Init, InitError};
use crate::roles::RoleKind;

verus! {

/// The assembled ledger program: one explicit store owning the role
/// registry, the pause gate, the token ledger and the admin metadata,
/// constructed once by `new` before any operation runs.
pub struct Program {
    pub service: admin::Service,
}

impl Program {
    /// Well-formed: every component store is.
    pub open spec fn wf(self) -> bool {
        self.service.wf()
    }

    /// Builds the whole ledger from its initialization parameters: seeds
    /// the role and token stores, the pause gate (active, with `admin_id`
    /// as pause admin), and the admin service (validating the supply cap
    /// and the description length — violations are fatal and abort
    /// construction entirely).
    pub fn new(init: Init) -> (r: Result<Program, InitError>)
        ensures
            (match r {
                Ok(p) => init.initial_supply@ <= init.max_supply@
                    && init.description@.len() <= 500
                    && p.wf()
                    && p.service.aggregated_service.erc20_service.conserves()
                    && p.service.aggregated_service.erc20_service.total_supply@
                        == init.initial_supply@
                    && p.service.aggregated_service.erc20_service.balances.spec_get(
                        init.admin_id,
                    ) == init.initial_supply@
                    && (forall|b: ActorId| b != init.admin_id
                        ==> #[trigger] p.service.aggregated_service.erc20_service.balances
                            .spec_get(b) == 0)
                    && (forall|b: ActorId, q: ActorId|
                        #[trigger] p.service.aggregated_service.erc20_service.allowances
                            .spec_get(b, q) == 0)
                    && !p.service.spec_paused()
                    && (forall|k: RoleKind| #[trigger] p.service.roles_service.spec_registered(
                        k,
                    ))
                    && (forall|k: RoleKind| #[trigger] p.service.roles_service.spec_has(
                        init.admin_id,
                        k,
                    ))
                    && (forall|a: ActorId, k: RoleKind| a != init.admin_id
                        ==> !(#[trigger] p.service.roles_service.spec_has(a, k)))
                    && p.service.meta.description@ == init.description@
                    && p.service.meta.max_supply == init.max_supply
                    && p.service.aggregated_service.erc20_service.meta.name@ == init.name@
                    && p.service.aggregated_service.erc20_service.meta.symbol@ == init.symbol@
                    && p.service.aggregated_service.erc20_service.meta.decimals
                        == init.decimals,
                Err(InitError::SupplyError) => init.initial_supply@ > init.max_supply@,
                Err(InitError::DescriptionError) => init.initial_supply@ <= init.max_supply@
                    && init.description@.len() > 500,
            }),
    {
        let mut roles_service = roles::Service::seed();
        let erc20_service = erc20::Service::seed(init.name, init.symbol, init.decimals);
        let pausable_service = pausable::Service::seed(&mut roles_service, init.admin_id);
        let aggregated_service = aggregated::Service::seed(erc20_service, pausable_service);
        let service = match admin::Service::seed(
            roles_service,
            aggregated_service,
            init.admin_id,
            init.description,
            init.external_links,
            init.initial_supply,
            init.max_supply,
        ) {
            Ok(s) => s,
            Err(e) => {
                return Err(e);
            },
        };
        proof {
            assert forall|k: RoleKind| #[trigger] service.roles_service.spec_registered(k) by {
                match k {
                    RoleKind::FungibleAdmin => {},
                    RoleKind::FungibleBurner => {},
                    RoleKind::FungibleMinter => {},
                    RoleKind::PauseAdmin => {},
                }
            }
        }
        Ok(Program { service })
    }

    /// The admin service, the program's exposed entry point.
    pub fn admin(&self) -> (r: &admin::Service)
        ensures
            *r == self.service,
    {
        &self.service
    }

    /// The pause-gated ledger.
    pub fn aggregated(&self) -> (r: &aggregated::Service)
        ensures
            *r == self.service.aggregated_service,
    {
        &self.service.aggregated_service
    }

    /// The token ledger.
    pub fn erc20(&self) -> (r: &erc20::Service)
        ensures
            *r == self.service.aggregated_service.erc20_service,
    {
        &self.service.aggregated_service.erc20_service
    }

    /// The access-control service.
    pub fn roles(&self) -> (r: &roles::Service)
        ensures
            *r == self.service.roles_service,
    {
        &self.service.roles_service
    }

    /// The pause service.
    pub fn pausable(&self) -> (r: &pausable::Service)
        ensures
            *r == self.service.aggregated_service.pausable_service,
    {
        &self.service.aggregated_service.pausable_service
    }
}

} // verus!
