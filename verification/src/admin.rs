//! Admin orchestration: composes the ledger, the access-control registry
//! and the pause gate into the privileged entry points, and holds the
//! auxiliary metadata (description, external links, supply cap).

use vstd::prelude::*;
use vstd::string::StrSliceExecFns;

use crate::actor::ActorId;
use crate::aggregated;
use crate::amount::{amount_limit, Amount};
use crate::roles;
use crate::roles::RoleKind;

pub mod funcs;
pub mod utils;

use self::utils::{
    from_pause_error, from_roles_error, option_view, role_kind, spec_role_kind, Error,
    ExternalLinks, InitError, Role,
};

verus! {

/// Auxiliary metadata of the deployment: a bounded description, structured
/// external links, and the immutable supply cap.
pub struct AdditionalMeta {
    pub description: String,
    pub external_links: ExternalLinks,
    pub max_supply: Amount,
}

/// An event describing a successful administrative mutation.
#[derive(Clone, Debug, PartialEq, Eq)]
pub enum Event {
    Minted { to: ActorId, value: Amount },
    Burned { from: ActorId, value: Amount },
    Killed { inheritor: ActorId },
    TransferredToUsers { from: ActorId, to: Vec<ActorId>, value: Amount },
}

/// The admin service: the access-control registry, the pause-gated ledger,
/// and the auxiliary metadata, owned as one explicit store.
pub struct Service {
    pub roles_service: roles::Service,
    pub aggregated_service: aggregated::Service,
    pub meta: AdditionalMeta,
}

impl Service {
    /// Well-formed: the registry and the ledger maps are.
    pub open spec fn wf(self) -> bool {
        self.roles_service.wf() && self.aggregated_service.wf()
    }

    /// Whether the circuit breaker is engaged.
    pub open spec fn spec_paused(self) -> bool {
        self.aggregated_service.pausable_service.spec_paused()
    }

    /// Whether `caller` may act in capacity `kind`: the role is registered
    /// and `caller` holds it.
    pub open spec fn spec_authorized(self, caller: ActorId, kind: RoleKind) -> bool {
        self.roles_service.spec_registered(kind) && self.roles_service.spec_has(caller, kind)
    }

    /// The plain constructor over already-initialized parts.
    pub fn new(
        roles_service: roles::Service,
        aggregated_service: aggregated::Service,
        meta: AdditionalMeta,
    ) -> (r: Service)
        ensures
            r.roles_service == roles_service,
            r.aggregated_service == aggregated_service,
            r.meta == meta,
    {
        Service { roles_service, aggregated_service, meta }
    }

    /// One-time construction: validates the configuration (initial supply
    /// within the cap, description at most 500 characters — violations are
    /// fatal and abort initialization), registers the three fungible roles,
    /// grants them to `admin`, and seeds the initial issuance into `admin`'s
    /// balance and the total supply.
    pub fn seed(
        roles_service: roles::Service,
        aggregated_service: aggregated::Service,
        admin: ActorId,
        description: String,
        external_links: ExternalLinks,
        initial_supply: Amount,
        max_supply: Amount,
    ) -> (r: Result<Service, InitError>)
        requires
            roles_service.wf(),
            aggregated_service.wf(),
        ensures
            (match r {
                Ok(s) => initial_supply@ <= max_supply@ && description@.len() <= 500
                    && s.wf()
                    && (forall|k: RoleKind| #[trigger] s.roles_service.spec_registered(k)
                        == (roles_service.spec_registered(k) || k == RoleKind::FungibleAdmin
                            || k == RoleKind::FungibleBurner || k == RoleKind::FungibleMinter))
                    && (forall|a: ActorId, k: RoleKind| #[trigger] s.roles_service.spec_has(a, k)
                        == (roles_service.spec_has(a, k) || (a == admin && (k
                            == RoleKind::FungibleAdmin || k == RoleKind::FungibleBurner || k
                            == RoleKind::FungibleMinter))))
                    && s.aggregated_service.pausable_service
                        == aggregated_service.pausable_service
                    && s.aggregated_service.erc20_service.allowances
                        == aggregated_service.erc20_service.allowances
                    && s.aggregated_service.erc20_service.meta
                        == aggregated_service.erc20_service.meta
                    && (forall|b: ActorId|
                        #[trigger] s.aggregated_service.erc20_service.balances.spec_get(b)
                            == if b == admin && initial_supply@ > 0 {
                                initial_supply@
                            } else {
                                aggregated_service.erc20_service.balances.spec_get(b)
                            })
                    && s.aggregated_service.erc20_service.total_supply@ == initial_supply@
                    && s.meta.description@ == description@
                    && s.meta.max_supply == max_supply
                    && option_view(s.meta.external_links.website)
                        == option_view(external_links.website)
                    && s.meta.external_links.image@ == external_links.image@
                    && (aggregated_service.erc20_service.balances.sum()
                        == aggregated_service.erc20_service.balances.spec_get(admin)
                        && (initial_supply@ > 0
                            || aggregated_service.erc20_service.balances.sum() == 0)
                        ==> s.aggregated_service.erc20_service.conserves()),
                Err(InitError::SupplyError) => initial_supply@ > max_supply@,
                Err(InitError::DescriptionError) => initial_supply@ <= max_supply@
                    && description@.len() > 500,
            }),
    {
        if max_supply.lt(&initial_supply) {
            return Err(InitError::SupplyError);
        }
        if description.as_str().unicode_len() > 500 {
            return Err(InitError::DescriptionError);
        }

        let mut rs = roles_service;
        let ghost m0 = rs;
        let _ = rs.register_role(RoleKind::FungibleAdmin);
        let ghost m1 = rs;
        let _ = rs.register_role(RoleKind::FungibleBurner);
        let ghost m2 = rs;
        let _ = rs.register_role(RoleKind::FungibleMinter);
        let ghost m3 = rs;
        proof {
            assert forall|a: ActorId, k: RoleKind| #[trigger] m3.spec_has(a, k)
                == m0.spec_has(a, k) by {
                assert(m3.assignments@ == m2.assignments@);
                assert(m2.assignments@ == m1.assignments@);
                assert(m1.assignments@ == m0.assignments@);
            }
            assert forall|k: RoleKind| #[trigger] m3.spec_registered(k)
                == (m0.spec_registered(k) || k == RoleKind::FungibleAdmin
                    || k == RoleKind::FungibleBurner || k == RoleKind::FungibleMinter) by {
            }
        }
        let granted = rs.grant_role(admin, RoleKind::FungibleAdmin);
        let ghost m4 = rs;
        proof {
            assert(granted.is_ok());
            assert forall|k: RoleKind| #[trigger] m4.spec_registered(k)
                == m3.spec_registered(k) by {
                assert(m4.registry@ == m3.registry@);
            }
        }
        let granted = rs.grant_role(admin, RoleKind::FungibleBurner);
        let ghost m5 = rs;
        proof {
            assert(granted.is_ok());
            assert forall|k: RoleKind| #[trigger] m5.spec_registered(k)
                == m4.spec_registered(k) by {
                assert(m5.registry@ == m4.registry@);
            }
        }
        let granted = rs.grant_role(admin, RoleKind::FungibleMinter);
        let ghost m6 = rs;
        proof {
            assert(granted.is_ok());
            assert forall|k: RoleKind| #[trigger] m6.spec_registered(k)
                == m5.spec_registered(k) by {
                assert(m6.registry@ == m5.registry@);
            }
            assert forall|a: ActorId, k: RoleKind| #[trigger] m6.spec_has(a, k)
                == (m0.spec_has(a, k) || (a == admin && (k == RoleKind::FungibleAdmin || k
                    == RoleKind::FungibleBurner || k == RoleKind::FungibleMinter))) by {
            }
        }

        let meta = AdditionalMeta { description, external_links, max_supply };

        let mut agg = aggregated_service;
        if !initial_supply.is_zero() {
            agg.erc20_service.balances.set(admin, initial_supply);
        }
        agg.erc20_service.total_supply = initial_supply;

        Ok(Service { roles_service: rs, aggregated_service: agg, meta })
    }

    /// Mints `value` to `to` on behalf of `caller`: gated by the circuit
    /// breaker and the minter role, then all-or-nothing on the ledger.
    pub fn mint(&mut self, caller: ActorId, to: ActorId, value: Amount) -> (r: Result<
        bool,
        Error,
    >)
        requires
            old(self).wf(),
        ensures
            final(self).wf(),
            final(self).roles_service == old(self).roles_service,
            final(self).aggregated_service.pausable_service
                == old(self).aggregated_service.pausable_service,
            final(self).aggregated_service.erc20_service.allowances
                == old(self).aggregated_service.erc20_service.allowances,
            final(self).meta == old(self).meta,
            (match r {
                Ok(false) => !old(self).spec_paused()
                    && old(self).spec_authorized(caller, RoleKind::FungibleMinter)
                    && value@ == 0,
                Ok(true) => !old(self).spec_paused()
                    && old(self).spec_authorized(caller, RoleKind::FungibleMinter) && value@ > 0
                    && old(self).aggregated_service.erc20_service.total_supply@ + value@
                        < amount_limit()
                    && old(self).aggregated_service.erc20_service.total_supply@ + value@
                        <= old(self).meta.max_supply@
                    && old(self).aggregated_service.erc20_service.balances.spec_get(to) + value@
                        < amount_limit(),
                Err(Error::Paused) => old(self).spec_paused(),
                Err(Error::UnknownRole) => !old(self).spec_paused()
                    && !old(self).roles_service.spec_registered(RoleKind::FungibleMinter),
                Err(Error::BadOrigin) => !old(self).spec_paused()
                    && old(self).roles_service.spec_registered(RoleKind::FungibleMinter)
                    && !old(self).roles_service.spec_has(caller, RoleKind::FungibleMinter),
                Err(Error::NumericOverflow) => !old(self).spec_paused()
                    && old(self).spec_authorized(caller, RoleKind::FungibleMinter) && value@ > 0
                    && (old(self).aggregated_service.erc20_service.total_supply@ + value@
                        >= amount_limit()
                        || (old(self).aggregated_service.erc20_service.total_supply@ + value@
                            <= old(self).meta.max_supply@
                            && old(self).aggregated_service.erc20_service.balances.spec_get(to)
                                + value@ >= amount_limit())),
                Err(Error::MaxSupplyReached) => !old(self).spec_paused()
                    && old(self).spec_authorized(caller, RoleKind::FungibleMinter) && value@ > 0
                    && old(self).aggregated_service.erc20_service.total_supply@ + value@
                        < amount_limit()
                    && old(self).aggregated_service.erc20_service.total_supply@ + value@
                        > old(self).meta.max_supply@,
                _ => false,
            }),
            r == Ok::<bool, Error>(true) ==> forall|b: ActorId|
                #[trigger] final(self).aggregated_service.erc20_service.balances.spec_get(b)
                    == if b == to {
                        (old(self).aggregated_service.erc20_service.balances.spec_get(to)
                            + value@) as nat
                    } else {
                        old(self).aggregated_service.erc20_service.balances.spec_get(b)
                    },
            r == Ok::<bool, Error>(true)
                ==> final(self).aggregated_service.erc20_service.total_supply@
                    == old(self).aggregated_service.erc20_service.total_supply@ + value@,
            r != Ok::<bool, Error>(true)
                ==> final(self).aggregated_service.erc20_service.balances@
                    == old(self).aggregated_service.erc20_service.balances@
                    && final(self).aggregated_service.erc20_service.total_supply
                        == old(self).aggregated_service.erc20_service.total_supply,
            old(self).aggregated_service.erc20_service.conserves()
                ==> final(self).aggregated_service.erc20_service.conserves(),
    {
        match self.aggregated_service.pausable_service.ensure_unpaused() {
            Ok(()) => {},
            Err(e) => {
                return Err(from_pause_error(e));
            },
        }
        match self.roles_service.ensure_has_role(caller, RoleKind::FungibleMinter) {
            Ok(()) => {},
            Err(e) => {
                return Err(from_roles_error(e));
            },
        }
        funcs::mint(
            &mut self.aggregated_service.erc20_service.balances,
            &self.meta,
            &mut self.aggregated_service.erc20_service.total_supply,
            to,
            value,
        )
    }

    /// Burns `value` from `from` on behalf of `caller`: gated by the
    /// circuit breaker and the burner role, then all-or-nothing.
    pub fn burn(&mut self, caller: ActorId, from: ActorId, value: Amount) -> (r: Result<
        bool,
        Error,
    >)
        requires
            old(self).wf(),
        ensures
            final(self).wf(),
            final(self).roles_service == old(self).roles_service,
            final(self).aggregated_service.pausable_service
                == old(self).aggregated_service.pausable_service,
            final(self).aggregated_service.erc20_service.allowances
                == old(self).aggregated_service.erc20_service.allowances,
            final(self).meta == old(self).meta,
            (match r {
                Ok(false) => !old(self).spec_paused()
                    && old(self).spec_authorized(caller, RoleKind::FungibleBurner)
                    && value@ == 0,
                Ok(true) => !old(self).spec_paused()
                    && old(self).spec_authorized(caller, RoleKind::FungibleBurner) && value@ > 0
                    && old(self).aggregated_service.erc20_service.total_supply@ >= value@
                    && old(self).aggregated_service.erc20_service.balances.spec_get(from)
                        >= value@,
                Err(Error::Paused) => old(self).spec_paused(),
                Err(Error::UnknownRole) => !old(self).spec_paused()
                    && !old(self).roles_service.spec_registered(RoleKind::FungibleBurner),
                Err(Error::BadOrigin) => !old(self).spec_paused()
                    && old(self).roles_service.spec_registered(RoleKind::FungibleBurner)
                    && !old(self).roles_service.spec_has(caller, RoleKind::FungibleBurner),
                Err(Error::Underflow) => !old(self).spec_paused()
                    && old(self).spec_authorized(caller, RoleKind::FungibleBurner) && value@ > 0
                    && old(self).aggregated_service.erc20_service.total_supply@ < value@,
                Err(Error::InsufficientBalance) => !old(self).spec_paused()
                    && old(self).spec_authorized(caller, RoleKind::FungibleBurner) && value@ > 0
                    && old(self).aggregated_service.erc20_service.total_supply@ >= value@
                    && old(self).aggregated_service.erc20_service.balances.spec_get(from)
                        < value@,
                _ => false,
            }),
            r == Ok::<bool, Error>(true) ==> forall|b: ActorId|
                #[trigger] final(self).aggregated_service.erc20_service.balances.spec_get(b)
                    == if b == from {
                        (old(self).aggregated_service.erc20_service.balances.spec_get(from)
                            - value@) as nat
                    } else {
                        old(self).aggregated_service.erc20_service.balances.spec_get(b)
                    },
            r == Ok::<bool, Error>(true)
                ==> final(self).aggregated_service.erc20_service.total_supply@
                    == old(self).aggregated_service.erc20_service.total_supply@ - value@,
            r != Ok::<bool, Error>(true)
                ==> final(self).aggregated_service.erc20_service.balances@
                    == old(self).aggregated_service.erc20_service.balances@
                    && final(self).aggregated_service.erc20_service.total_supply
                        == old(self).aggregated_service.erc20_service.total_supply,
            old(self).aggregated_service.erc20_service.conserves()
                ==> final(self).aggregated_service.erc20_service.conserves(),
    {
        match self.aggregated_service.pausable_service.ensure_unpaused() {
            Ok(()) => {},
            Err(e) => {
                return Err(from_pause_error(e));
            },
        }
        match self.roles_service.ensure_has_role(caller, RoleKind::FungibleBurner) {
            Ok(()) => {},
            Err(e) => {
                return Err(from_roles_error(e));
            },
        }
        funcs::burn(
            &mut self.aggregated_service.erc20_service.balances,
            &mut self.aggregated_service.erc20_service.total_supply,
            from,
            value,
        )
    }

    /// Batch transfer from `caller` to every account in `to`, `value` each:
    /// gated by the circuit breaker, checked in full before any credit.
    pub fn transfer_to_users(&mut self, caller: ActorId, to: Vec<ActorId>, value: Amount) -> (r:
        Result<bool, Error>)
        requires
            old(self).wf(),
        ensures
            final(self).wf(),
            final(self).roles_service == old(self).roles_service,
            final(self).aggregated_service.pausable_service
                == old(self).aggregated_service.pausable_service,
            final(self).aggregated_service.erc20_service.allowances
                == old(self).aggregated_service.erc20_service.allowances,
            final(self).aggregated_service.erc20_service.total_supply
                == old(self).aggregated_service.erc20_service.total_supply,
            final(self).meta == old(self).meta,
            (match r {
                Ok(false) => !old(self).spec_paused() && value@ == 0,
                Ok(true) => !old(self).spec_paused() && value@ > 0
                    && old(self).aggregated_service.erc20_service.balances.spec_get(caller)
                        >= value@ * to@.len()
                    && funcs::credits_fit(
                    old(self).aggregated_service.erc20_service.balances,
                    caller,
                    (value@ * to@.len()) as nat,
                    to@,
                    value@,
                ),
                Err(Error::Paused) => old(self).spec_paused(),
                Err(Error::InsufficientBalance) => !old(self).spec_paused() && value@ > 0
                    && old(self).aggregated_service.erc20_service.balances.spec_get(caller)
                        < value@ * to@.len(),
                Err(Error::NumericOverflow) => !old(self).spec_paused() && value@ > 0
                    && old(self).aggregated_service.erc20_service.balances.spec_get(caller)
                        >= value@ * to@.len()
                    && !funcs::credits_fit(
                    old(self).aggregated_service.erc20_service.balances,
                    caller,
                    (value@ * to@.len()) as nat,
                    to@,
                    value@,
                ),
                _ => false,
            }),
            r == Ok::<bool, Error>(true) ==> forall|b: ActorId|
                #[trigger] final(self).aggregated_service.erc20_service.balances.spec_get(b)
                    == funcs::spec_debited(
                    old(self).aggregated_service.erc20_service.balances,
                    caller,
                    (value@ * to@.len()) as nat,
                    b,
                ) + value@ * funcs::occurrences(to@, b),
            r != Ok::<bool, Error>(true)
                ==> final(self).aggregated_service.erc20_service.balances@
                    == old(self).aggregated_service.erc20_service.balances@,
            final(self).aggregated_service.erc20_service.balances.sum()
                == old(self).aggregated_service.erc20_service.balances.sum(),
            old(self).aggregated_service.erc20_service.conserves()
                ==> final(self).aggregated_service.erc20_service.conserves(),
    {
        match self.aggregated_service.pausable_service.ensure_unpaused() {
            Ok(()) => {},
            Err(e) => {
                return Err(from_pause_error(e));
            },
        }
        funcs::transfer_to_users(
            &mut self.aggregated_service.erc20_service.balances,
            caller,
            to,
            value,
        )
    }

    /// Pre-allocates allowance capacity, gated by the circuit breaker; a
    /// pure performance hint.
    pub fn allowances_reserve(&mut self, additional: u32) -> (r: Result<(), Error>)
        requires
            old(self).wf(),
        ensures
            final(self).wf(),
            final(self).roles_service == old(self).roles_service,
            final(self).aggregated_service.pausable_service
                == old(self).aggregated_service.pausable_service,
            final(self).aggregated_service.erc20_service.allowances@
                == old(self).aggregated_service.erc20_service.allowances@,
            final(self).aggregated_service.erc20_service.balances
                == old(self).aggregated_service.erc20_service.balances,
            final(self).aggregated_service.erc20_service.total_supply
                == old(self).aggregated_service.erc20_service.total_supply,
            final(self).meta == old(self).meta,
            (match r {
                Ok(()) => !old(self).spec_paused(),
                Err(e) => old(self).spec_paused() && e == Error::Paused,
            }),
    {
        match self.aggregated_service.pausable_service.ensure_unpaused() {
            Ok(()) => {},
            Err(e) => {
                return Err(from_pause_error(e));
            },
        }
        funcs::allowances_reserve(
            &mut self.aggregated_service.erc20_service.allowances,
            additional as usize,
        );
        Ok(())
    }

    /// Pre-allocates balance capacity, gated by the circuit breaker; a pure
    /// performance hint.
    pub fn balances_reserve(&mut self, additional: u32) -> (r: Result<(), Error>)
        requires
            old(self).wf(),
        ensures
            final(self).wf(),
            final(self).roles_service == old(self).roles_service,
            final(self).aggregated_service.pausable_service
                == old(self).aggregated_service.pausable_service,
            final(self).aggregated_service.erc20_service.balances@
                == old(self).aggregated_service.erc20_service.balances@,
            final(self).aggregated_service.erc20_service.allowances
                == old(self).aggregated_service.erc20_service.allowances,
            final(self).aggregated_service.erc20_service.total_supply
                == old(self).aggregated_service.erc20_service.total_supply,
            final(self).meta == old(self).meta,
            (match r {
                Ok(()) => !old(self).spec_paused(),
                Err(e) => old(self).spec_paused() && e == Error::Paused,
            }),
    {
        match self.aggregated_service.pausable_service.ensure_unpaused() {
            Ok(()) => {},
            Err(e) => {
                return Err(from_pause_error(e));
            },
        }
        funcs::balances_reserve(
            &mut self.aggregated_service.erc20_service.balances,
            additional as usize,
        );
        Ok(())
    }

    /// Map sizes and reserved capacities, for capacity planning.
    pub fn maps_data(&self) -> (r: ((usize, usize), (usize, usize)))
        ensures
            r.0.0 == self.aggregated_service.erc20_service.allowances@.len(),
            r.0.1 >= r.0.0,
            r.1.0 == self.aggregated_service.erc20_service.balances@.len(),
            r.1.1 >= r.1.0,
    {
        funcs::maps_data(
            &self.aggregated_service.erc20_service.allowances,
            &self.aggregated_service.erc20_service.balances,
        )
    }

    /// A page of the allowances map: up to `take` entries starting at
    /// `skip`.
    pub fn allowances(&self, skip: u32, take: u32) -> (r: Vec<(ActorId, ActorId, Amount)>)
        ensures
            r@.len() == funcs::spec_page_len(
                self.aggregated_service.erc20_service.allowances@.len(),
                skip as nat,
                take as nat,
            ),
            forall|i: int| 0 <= i < r@.len() ==> (#[trigger] r@[i])
                == self.aggregated_service.erc20_service.allowances@[skip + i],
    {
        funcs::allowances(
            &self.aggregated_service.erc20_service.allowances,
            skip as usize,
            take as usize,
        )
    }

    /// A page of the balances map: up to `take` entries starting at `skip`.
    pub fn balances(&self, skip: u32, take: u32) -> (r: Vec<(ActorId, Amount)>)
        ensures
            r@.len() == funcs::spec_page_len(
                self.aggregated_service.erc20_service.balances@.len(),
                skip as nat,
                take as nat,
            ),
            forall|i: int| 0 <= i < r@.len() ==> (#[trigger] r@[i])
                == self.aggregated_service.erc20_service.balances@[skip + i],
    {
        funcs::balances(
            &self.aggregated_service.erc20_service.balances,
            skip as usize,
            take as usize,
        )
    }

    /// Grants the selected role to `to`, on the authority of `caller`'s
    /// admin role; gated by the circuit breaker.
    pub fn grant_role(&mut self, caller: ActorId, to: ActorId, role: Role) -> (r: Result<
        bool,
        Error,
    >)
        requires
            old(self).wf(),
        ensures
            final(self).wf(),
            final(self).aggregated_service == old(self).aggregated_service,
            final(self).meta == old(self).meta,
            final(self).roles_service.registry == old(self).roles_service.registry,
            (match r {
                Ok(changed) => !old(self).spec_paused()
                    && old(self).spec_authorized(caller, RoleKind::FungibleAdmin)
                    && old(self).roles_service.spec_registered(spec_role_kind(role))
                    && changed == !old(self).roles_service.spec_has(to, spec_role_kind(role))
                    && (forall|a: ActorId, k: RoleKind|
                        #[trigger] final(self).roles_service.spec_has(a, k)
                            == (old(self).roles_service.spec_has(a, k) || (a == to && k
                                == spec_role_kind(role)))),
                Err(Error::Paused) => old(self).spec_paused()
                    && final(self).roles_service == old(self).roles_service,
                Err(Error::UnknownRole) => !old(self).spec_paused()
                    && final(self).roles_service == old(self).roles_service
                    && (!old(self).roles_service.spec_registered(RoleKind::FungibleAdmin)
                        || (old(self).spec_authorized(caller, RoleKind::FungibleAdmin)
                            && !old(self).roles_service.spec_registered(spec_role_kind(role)))),
                Err(Error::BadOrigin) => !old(self).spec_paused()
                    && final(self).roles_service == old(self).roles_service
                    && old(self).roles_service.spec_registered(RoleKind::FungibleAdmin)
                    && !old(self).roles_service.spec_has(caller, RoleKind::FungibleAdmin),
                _ => false,
            }),
    {
        match self.aggregated_service.pausable_service.ensure_unpaused() {
            Ok(()) => {},
            Err(e) => {
                return Err(from_pause_error(e));
            },
        }
        match self.roles_service.ensure_has_role(caller, RoleKind::FungibleAdmin) {
            Ok(()) => {},
            Err(e) => {
                return Err(from_roles_error(e));
            },
        }
        let kind = role_kind(role);
        match self.roles_service.grant_role(to, kind) {
            Ok(changed) => Ok(changed),
            Err(e) => Err(from_roles_error(e)),
        }
    }

    /// Revokes the selected role from `from`, on the authority of
    /// `caller`'s admin role; gated by the circuit breaker.
    pub fn remove_role(&mut self, caller: ActorId, from: ActorId, role: Role) -> (r: Result<
        bool,
        Error,
    >)
        requires
            old(self).wf(),
        ensures
            final(self).wf(),
            final(self).aggregated_service == old(self).aggregated_service,
            final(self).meta == old(self).meta,
            final(self).roles_service.registry == old(self).roles_service.registry,
            (match r {
                Ok(changed) => !old(self).spec_paused()
                    && old(self).spec_authorized(caller, RoleKind::FungibleAdmin)
                    && old(self).roles_service.spec_registered(spec_role_kind(role))
                    && changed == old(self).roles_service.spec_has(from, spec_role_kind(role))
                    && (forall|a: ActorId, k: RoleKind|
                        #[trigger] final(self).roles_service.spec_has(a, k)
                            == (old(self).roles_service.spec_has(a, k) && !(a == from && k
                                == spec_role_kind(role)))),
                Err(Error::Paused) => old(self).spec_paused()
                    && final(self).roles_service == old(self).roles_service,
                Err(Error::UnknownRole) => !old(self).spec_paused()
                    && final(self).roles_service == old(self).roles_service
                    && (!old(self).roles_service.spec_registered(RoleKind::FungibleAdmin)
                        || (old(self).spec_authorized(caller, RoleKind::FungibleAdmin)
                            && !old(self).roles_service.spec_registered(spec_role_kind(role)))),
                Err(Error::BadOrigin) => !old(self).spec_paused()
                    && final(self).roles_service == old(self).roles_service
                    && old(self).roles_service.spec_registered(RoleKind::FungibleAdmin)
                    && !old(self).roles_service.spec_has(caller, RoleKind::FungibleAdmin),
                _ => false,
            }),
    {
        match self.aggregated_service.pausable_service.ensure_unpaused() {
            Ok(()) => {},
            Err(e) => {
                return Err(from_pause_error(e));
            },
        }
        match self.roles_service.ensure_has_role(caller, RoleKind::FungibleAdmin) {
            Ok(()) => {},
            Err(e) => {
                return Err(from_roles_error(e));
            },
        }
        let kind = role_kind(role);
        match self.roles_service.remove_role(from, kind) {
            Ok(changed) => Ok(changed),
            Err(e) => Err(from_roles_error(e)),
        }
    }

    /// Authorizes the irreversible termination: `Ok` exactly when `caller`
    /// holds the admin role. The surrounding host then halts the system and
    /// hands residual responsibility to `inheritor`; nothing runs after it,
    /// so the library's part is the authorization decision alone.
    pub fn kill(&self, caller: ActorId, inheritor: ActorId) -> (r: Result<Event, Error>)
        requires
            self.wf(),
        ensures
            (match r {
                Ok(e) => self.spec_authorized(caller, RoleKind::FungibleAdmin)
                    && e == (Event::Killed { inheritor }),
                Err(Error::UnknownRole) => !self.roles_service.spec_registered(
                    RoleKind::FungibleAdmin,
                ),
                Err(Error::BadOrigin) => self.roles_service.spec_registered(
                    RoleKind::FungibleAdmin,
                ) && !self.roles_service.spec_has(caller, RoleKind::FungibleAdmin),
                _ => false,
            }),
    {
        match self.roles_service.ensure_has_role(caller, RoleKind::FungibleAdmin) {
            Ok(()) => {},
            Err(e) => {
                return Err(from_roles_error(e));
            },
        }
        Ok(Event::Killed { inheritor })
    }

    /// The deployment description.
    pub fn description(&self) -> (r: String)
        ensures
            r@ == self.meta.description@,
    {
        self.meta.description.clone()
    }

    /// The structured external links.
    pub fn external_links(&self) -> (r: ExternalLinks)
        ensures
            r.image@ == self.meta.external_links.image@,
            option_view(r.website) == option_view(self.meta.external_links.website),
            option_view(r.telegram) == option_view(self.meta.external_links.telegram),
            option_view(r.twitter) == option_view(self.meta.external_links.twitter),
            option_view(r.discord) == option_view(self.meta.external_links.discord),
            option_view(r.tokenomics) == option_view(self.meta.external_links.tokenomics),
    {
        self.meta.external_links.duplicate()
    }

    /// The immutable supply cap.
    pub fn max_supply(&self) -> (r: Amount)
        ensures
            r == self.meta.max_supply,
    {
        self.meta.max_supply
    }
}

} // verus!
