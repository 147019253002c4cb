//! The pause-gated face of the token ledger: user-facing value mutations
//! consult the circuit breaker before delegating to the ledger arithmetic.

use vstd::prelude::*;

use crate::actor::ActorId;
use crate::admin::utils::{from_ledger_error, from_pause_error, Error};
use crate::amount::{amount_limit, Amount};
use crate::erc20;
use crate::pausable;

verus! {

/// The ledger with its circuit breaker, owned together so every gated
/// operation can consult the pause state first.
pub struct Service {
    pub erc20_service: erc20::Service,
    pub pausable_service: pausable::Service,
}

impl Service {
    /// Well-formed: the underlying ledger maps are.
    pub open spec fn wf(self) -> bool {
        self.erc20_service.wf()
    }

    /// Composes an initialized ledger with an initialized pause gate.
    pub fn seed(erc20_service: erc20::Service, pausable_service: pausable::Service) -> (r:
        Service)
        ensures
            r.erc20_service == erc20_service,
            r.pausable_service == pausable_service,
    {
        Service { erc20_service, pausable_service }
    }

    /// As `seed`; the plain constructor.
    pub fn new(erc20_service: erc20::Service, pausable_service: pausable::Service) -> (r: Service)
        ensures
            r.erc20_service == erc20_service,
            r.pausable_service == pausable_service,
    {
        Service { erc20_service, pausable_service }
    }

    /// `transfer`, gated by the circuit breaker: fails with `Paused`, and
    /// mutates nothing, while the breaker is engaged.
    pub fn transfer(&mut self, from: ActorId, to: ActorId, value: Amount) -> (r: Result<
        bool,
        Error,
    >)
        requires
            old(self).wf(),
        ensures
            final(self).wf(),
            final(self).pausable_service == old(self).pausable_service,
            final(self).erc20_service.allowances == old(self).erc20_service.allowances,
            final(self).erc20_service.total_supply == old(self).erc20_service.total_supply,
            (match r {
                Ok(true) => !old(self).pausable_service.spec_paused() && value@ > 0 && from != to
                    && old(self).erc20_service.balances.spec_get(from) >= value@
                    && old(self).erc20_service.balances.spec_get(to) + value@ < amount_limit(),
                Ok(false) => !old(self).pausable_service.spec_paused() && (value@ == 0
                    || (from == to && old(self).erc20_service.balances.spec_get(from) >= value@)),
                Err(Error::Paused) => old(self).pausable_service.spec_paused(),
                Err(Error::InsufficientBalance) => !old(self).pausable_service.spec_paused()
                    && value@ > 0 && old(self).erc20_service.balances.spec_get(from) < value@,
                Err(Error::NumericOverflow) => !old(self).pausable_service.spec_paused()
                    && value@ > 0 && from != to
                    && old(self).erc20_service.balances.spec_get(from) >= value@
                    && old(self).erc20_service.balances.spec_get(to) + value@ >= amount_limit(),
                _ => false,
            }),
            r == Ok::<bool, Error>(true) ==> forall|b: ActorId|
                #[trigger] final(self).erc20_service.balances.spec_get(b)
                    == if b == from {
                        (old(self).erc20_service.balances.spec_get(from) - value@) as nat
                    } else if b == to {
                        (old(self).erc20_service.balances.spec_get(to) + value@) as nat
                    } else {
                        old(self).erc20_service.balances.spec_get(b)
                    },
            r != Ok::<bool, Error>(true) ==> final(self).erc20_service.balances@
                == old(self).erc20_service.balances@,
            old(self).erc20_service.conserves() ==> final(self).erc20_service.conserves(),
    {
        match self.pausable_service.ensure_unpaused() {
            Ok(()) => {},
            Err(e) => {
                return Err(from_pause_error(e));
            },
        }
        match self.erc20_service.transfer(from, to, value) {
            Ok(mutated) => Ok(mutated),
            Err(e) => Err(from_ledger_error(e)),
        }
    }

    /// `approve`, gated by the circuit breaker.
    pub fn approve(&mut self, owner: ActorId, spender: ActorId, value: Amount) -> (r: Result<
        bool,
        Error,
    >)
        requires
            old(self).wf(),
        ensures
            final(self).wf(),
            final(self).pausable_service == old(self).pausable_service,
            final(self).erc20_service.balances == old(self).erc20_service.balances,
            final(self).erc20_service.total_supply == old(self).erc20_service.total_supply,
            (match r {
                Ok(mutated) => !old(self).pausable_service.spec_paused() && mutated
                    == (old(self).erc20_service.allowances.spec_get(owner, spender) != value@),
                Err(e) => e == Error::Paused && old(self).pausable_service.spec_paused()
                    && final(self).erc20_service.allowances@
                        == old(self).erc20_service.allowances@,
            }),
            r is Ok ==> forall|b: ActorId, q: ActorId|
                #[trigger] final(self).erc20_service.allowances.spec_get(b, q)
                    == if b == owner && q == spender {
                        value@
                    } else {
                        old(self).erc20_service.allowances.spec_get(b, q)
                    },
            old(self).erc20_service.conserves() ==> final(self).erc20_service.conserves(),
    {
        match self.pausable_service.ensure_unpaused() {
            Ok(()) => {},
            Err(e) => {
                return Err(from_pause_error(e));
            },
        }
        Ok(self.erc20_service.approve(owner, spender, value))
    }

    /// `transfer_from`, gated by the circuit breaker.
    pub fn from_transfer(
        &mut self,
        spender: ActorId,
        from: ActorId,
        to: ActorId,
        value: Amount,
    ) -> (r: Result<bool, Error>)
        requires
            old(self).wf(),
        ensures
            final(self).wf(),
            final(self).pausable_service == old(self).pausable_service,
            final(self).erc20_service.total_supply == old(self).erc20_service.total_supply,
            (match r {
                Ok(true) => !old(self).pausable_service.spec_paused() && value@ > 0
                    && old(self).erc20_service.allowances.spec_get(from, spender) >= value@
                    && old(self).erc20_service.balances.spec_get(from) >= value@
                    && (from == to
                        || old(self).erc20_service.balances.spec_get(to) + value@
                            < amount_limit()),
                Ok(false) => !old(self).pausable_service.spec_paused() && value@ == 0,
                Err(Error::Paused) => old(self).pausable_service.spec_paused(),
                Err(Error::InsufficientAllowance) => !old(self).pausable_service.spec_paused()
                    && value@ > 0
                    && old(self).erc20_service.allowances.spec_get(from, spender) < value@,
                Err(Error::InsufficientBalance) => !old(self).pausable_service.spec_paused()
                    && value@ > 0
                    && old(self).erc20_service.allowances.spec_get(from, spender) >= value@
                    && old(self).erc20_service.balances.spec_get(from) < value@,
                Err(Error::NumericOverflow) => !old(self).pausable_service.spec_paused()
                    && value@ > 0
                    && old(self).erc20_service.allowances.spec_get(from, spender) >= value@
                    && old(self).erc20_service.balances.spec_get(from) >= value@ && from != to
                    && old(self).erc20_service.balances.spec_get(to) + value@ >= amount_limit(),
                _ => false,
            }),
            r == Ok::<bool, Error>(true) ==> forall|b: ActorId, q: ActorId|
                #[trigger] final(self).erc20_service.allowances.spec_get(b, q)
                    == if b == from && q == spender {
                        (old(self).erc20_service.allowances.spec_get(from, spender) - value@)
                            as nat
                    } else {
                        old(self).erc20_service.allowances.spec_get(b, q)
                    },
            r == Ok::<bool, Error>(true) ==> forall|b: ActorId|
                #[trigger] final(self).erc20_service.balances.spec_get(b)
                    == if from == to {
                        old(self).erc20_service.balances.spec_get(b)
                    } else if b == from {
                        (old(self).erc20_service.balances.spec_get(from) - value@) as nat
                    } else if b == to {
                        (old(self).erc20_service.balances.spec_get(to) + value@) as nat
                    } else {
                        old(self).erc20_service.balances.spec_get(b)
                    },
            r != Ok::<bool, Error>(true) ==> final(self).erc20_service.allowances@
                == old(self).erc20_service.allowances@
                && final(self).erc20_service.balances@ == old(self).erc20_service.balances@,
            old(self).erc20_service.conserves() ==> final(self).erc20_service.conserves(),
    {
        match self.pausable_service.ensure_unpaused() {
            Ok(()) => {},
            Err(e) => {
                return Err(from_pause_error(e));
            },
        }
        match self.erc20_service.from_transfer(spender, from, to, value) {
            Ok(mutated) => Ok(mutated),
            Err(e) => Err(from_ledger_error(e)),
        }
    }

    /// The `set_balance` escape hatch, deliberately not pause-gated: it
    /// bypasses the normal mutation paths altogether.
    pub fn set_balance(&mut self, owner: ActorId, new_balance: Amount) -> (mutated: bool)
        requires
            old(self).wf(),
        ensures
            final(self).wf(),
            final(self).pausable_service == old(self).pausable_service,
            final(self).erc20_service.allowances == old(self).erc20_service.allowances,
            mutated == (old(self).erc20_service.balances.spec_get(owner) != new_balance@),
            !mutated ==> final(self).erc20_service.balances@ == old(self).erc20_service.balances@
                && final(self).erc20_service.total_supply
                    == old(self).erc20_service.total_supply,
            mutated ==> forall|b: ActorId|
                #[trigger] final(self).erc20_service.balances.spec_get(b)
                    == if b == owner {
                        new_balance@
                    } else {
                        old(self).erc20_service.balances.spec_get(b)
                    },
            mutated ==> final(self).erc20_service.total_supply@ == erc20::spec_adjusted_total(
                old(self).erc20_service.total_supply@,
                old(self).erc20_service.balances.spec_get(owner),
                new_balance@,
            ),
            old(self).erc20_service.conserves() && old(self).erc20_service.balances.sum()
                - old(self).erc20_service.balances.spec_get(owner) + new_balance@
                < amount_limit() ==> final(self).erc20_service.conserves(),
    {
        self.erc20_service.set_balance(owner, new_balance)
    }
}

} // verus!
