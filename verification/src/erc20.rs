//! The token ledger: balances, allowances, total supply, and the arithmetic
//! operations that must preserve conservation and non-negativity. The free
//! functions are the pure core over raw maps; `Service` couples the maps with
//! the total-supply counter and the token metadata.

use vstd::prelude::*;

use crate::actor::ActorId;
use crate::amount::{amount_limit, Amount};
use crate::maps::{AllowancesMap, BalancesMap};

verus! {

/// Errors of the pure ledger operations. All are value-level and
/// recoverable; an operation that fails leaves the maps untouched.
#[derive(Clone, Copy, Debug, PartialEq, Eq, Structural)]
pub enum Error {
    NumericOverflow,
    InsufficientBalance,
    InsufficientAllowance,
}

/// Token metadata, set once at initialization and read-only thereafter.
pub struct Meta {
    pub name: String,
    pub symbol: String,
    pub decimals: u8,
}

/// The stored balance of `owner`, or zero when absent.
pub fn balance_of(balances: &BalancesMap, owner: ActorId) -> (r: Amount)
    requires
        balances.wf(),
    ensures
        r@ == balances.spec_get(owner),
{
    balances.get(&owner)
}

/// The stored allowance of (owner, spender), or zero when absent.
pub fn allowance(allowances: &AllowancesMap, owner: ActorId, spender: ActorId) -> (r: Amount)
    requires
        allowances.wf(),
    ensures
        r@ == allowances.spec_get(owner, spender),
{
    allowances.get(&owner, &spender)
}

/// Sets the allowance of (owner, spender) to `value` (not additive); a zero
/// value removes the entry. Always succeeds; the result reports whether the
/// stored state actually changed.
pub fn approve(
    allowances: &mut AllowancesMap,
    owner: ActorId,
    spender: ActorId,
    value: Amount,
) -> (mutated: bool)
    requires
        old(allowances).wf(),
    ensures
        final(allowances).wf(),
        mutated == (old(allowances).spec_get(owner, spender) != value@),
        forall|b: ActorId, q: ActorId| #[trigger] final(allowances).spec_get(b, q)
            == if b == owner && q == spender {
                value@
            } else {
                old(allowances).spec_get(b, q)
            },
{
    let previous = allowances.get(&owner, &spender);
    if previous.eq_val(&value) {
        return false;
    }
    allowances.set(owner, spender, value);
    true
}

/// Moves `value` from `from` to `to`. A zero value is a no-op reporting no
/// mutation, as is a self-transfer with sufficient funds. The debited entry
/// is removed when it reaches zero; the whole operation fails without any
/// mutation when funds are insufficient or the credit would not fit.
pub fn transfer(
    balances: &mut BalancesMap,
    from: ActorId,
    to: ActorId,
    value: Amount,
) -> (r: Result<bool, Error>)
    requires
        old(balances).wf(),
    ensures
        final(balances).wf(),
        (match r {
            Ok(true) => value@ > 0 && from != to && old(balances).spec_get(from) >= value@
                && old(balances).spec_get(to) + value@ < amount_limit(),
            Ok(false) => value@ == 0 || (from == to && old(balances).spec_get(from) >= value@),
            Err(Error::InsufficientBalance) => value@ > 0
                && old(balances).spec_get(from) < value@,
            Err(Error::NumericOverflow) => value@ > 0 && from != to
                && old(balances).spec_get(from) >= value@
                && old(balances).spec_get(to) + value@ >= amount_limit(),
            Err(Error::InsufficientAllowance) => false,
        }),
        r == Ok::<bool, Error>(true) ==> forall|b: ActorId| #[trigger] final(balances).spec_get(b)
            == if b == from {
                (old(balances).spec_get(from) - value@) as nat
            } else if b == to {
                (old(balances).spec_get(to) + value@) as nat
            } else {
                old(balances).spec_get(b)
            },
        r != Ok::<bool, Error>(true) ==> final(balances)@ == old(balances)@,
        final(balances).sum() == old(balances).sum(),
{
    if value.is_zero() {
        return Ok(false);
    }
    let from_balance = balance_of(balances, from);
    let new_from = match from_balance.checked_sub(value) {
        Some(v) => v,
        None => {
            return Err(Error::InsufficientBalance);
        },
    };
    if from == to {
        return Ok(false);
    }
    let new_to = match balance_of(balances, to).checked_add(value) {
        Some(v) => v,
        None => {
            return Err(Error::NumericOverflow);
        },
    };
    balances.set(from, new_from);
    balances.set(to, new_to);
    Ok(true)
}

/// As `transfer`, but moves funds out of `owner`'s balance on the strength
/// of `spender`'s allowance, which is decremented by `value` (the entry is
/// removed when it reaches zero). The allowance check comes first; every
/// failure leaves both maps untouched.
pub fn transfer_from(
    allowances: &mut AllowancesMap,
    balances: &mut BalancesMap,
    spender: ActorId,
    owner: ActorId,
    to: ActorId,
    value: Amount,
) -> (r: Result<bool, Error>)
    requires
        old(allowances).wf(),
        old(balances).wf(),
    ensures
        final(allowances).wf(),
        final(balances).wf(),
        (match r {
            Ok(true) => value@ > 0 && old(allowances).spec_get(owner, spender) >= value@
                && old(balances).spec_get(owner) >= value@
                && (owner == to || old(balances).spec_get(to) + value@ < amount_limit()),
            Ok(false) => value@ == 0,
            Err(Error::InsufficientAllowance) => value@ > 0
                && old(allowances).spec_get(owner, spender) < value@,
            Err(Error::InsufficientBalance) => value@ > 0
                && old(allowances).spec_get(owner, spender) >= value@
                && old(balances).spec_get(owner) < value@,
            Err(Error::NumericOverflow) => value@ > 0
                && old(allowances).spec_get(owner, spender) >= value@
                && old(balances).spec_get(owner) >= value@ && owner != to
                && old(balances).spec_get(to) + value@ >= amount_limit(),
        }),
        r == Ok::<bool, Error>(true) ==> forall|b: ActorId, q: ActorId|
            #[trigger] final(allowances).spec_get(b, q)
                == if b == owner && q == spender {
                    (old(allowances).spec_get(owner, spender) - value@) as nat
                } else {
                    old(allowances).spec_get(b, q)
                },
        r == Ok::<bool, Error>(true) ==> forall|b: ActorId| #[trigger] final(balances).spec_get(b)
            == if owner == to {
                old(balances).spec_get(b)
            } else if b == owner {
                (old(balances).spec_get(owner) - value@) as nat
            } else if b == to {
                (old(balances).spec_get(to) + value@) as nat
            } else {
                old(balances).spec_get(b)
            },
        r != Ok::<bool, Error>(true) ==> final(allowances)@ == old(allowances)@
            && final(balances)@ == old(balances)@,
        final(balances).sum() == old(balances).sum(),
{
    if value.is_zero() {
        return Ok(false);
    }
    let current_allowance = allowance(allowances, owner, spender);
    let new_allowance = match current_allowance.checked_sub(value) {
        Some(v) => v,
        None => {
            return Err(Error::InsufficientAllowance);
        },
    };
    let owner_balance = balance_of(balances, owner);
    let new_owner = match owner_balance.checked_sub(value) {
        Some(v) => v,
        None => {
            return Err(Error::InsufficientBalance);
        },
    };
    if owner != to {
        let new_to = match balance_of(balances, to).checked_add(value) {
            Some(v) => v,
            None => {
                return Err(Error::NumericOverflow);
            },
        };
        balances.set(owner, new_owner);
        balances.set(to, new_to);
    }
    allowances.set(owner, spender, new_allowance);
    Ok(true)
}

/// An event describing a successful ledger mutation, for the surrounding
/// notification sink; at most one per successful mutating call.
#[derive(Clone, Copy, Debug, PartialEq, Eq, Structural)]
pub enum Event {
    Transfer { from: ActorId, to: ActorId, value: Amount },
    Approval { owner: ActorId, spender: ActorId, value: Amount },
}

/// The token ledger service: the two maps, the total-supply counter, and the
/// token metadata, owned as one explicit store.
pub struct Service {
    pub allowances: AllowancesMap,
    pub balances: BalancesMap,
    pub total_supply: Amount,
    pub meta: Meta,
}

impl Service {
    /// Well-formed: both maps keep unique keys and elide zero values.
    pub open spec fn wf(self) -> bool {
        self.allowances.wf() && self.balances.wf()
    }

    /// Conservation: the total supply equals the sum of all balances.
    /// Holds in every reachable state, except through the deliberate
    /// `set_balance` escape hatch when its saturating adjustment caps.
    pub open spec fn conserves(self) -> bool {
        self.total_supply@ == self.balances.sum()
    }

    /// A fresh ledger: empty maps, zero supply, the given metadata.
    pub fn new(name: String, symbol: String, decimals: u8) -> (r: Service)
        ensures
            r.wf(),
            r.conserves(),
            r.total_supply@ == 0,
            forall|b: ActorId| #[trigger] r.balances.spec_get(b) == 0,
            forall|b: ActorId, q: ActorId| #[trigger] r.allowances.spec_get(b, q) == 0,
            r.balances@.len() == 0,
            r.allowances@.len() == 0,
            r.meta.name@ == name@,
            r.meta.symbol@ == symbol@,
            r.meta.decimals == decimals,
    {
        Service {
            allowances: AllowancesMap::new(),
            balances: BalancesMap::new(),
            total_supply: Amount::zero(),
            meta: Meta { name, symbol, decimals },
        }
    }

    /// Initializes the ledger stores; an alias of `new` for explicit,
    /// one-time construction by the bootstrap layer.
    pub fn seed(name: String, symbol: String, decimals: u8) -> (r: Service)
        ensures
            r.wf(),
            r.conserves(),
            r.total_supply@ == 0,
            forall|b: ActorId| #[trigger] r.balances.spec_get(b) == 0,
            forall|b: ActorId, q: ActorId| #[trigger] r.allowances.spec_get(b, q) == 0,
            r.balances@.len() == 0,
            r.allowances@.len() == 0,
            r.meta.name@ == name@,
            r.meta.symbol@ == symbol@,
            r.meta.decimals == decimals,
    {
        Service::new(name, symbol, decimals)
    }

    /// The allowance of (owner, spender).
    pub fn allowance(&self, owner: ActorId, spender: ActorId) -> (r: Amount)
        requires
            self.wf(),
        ensures
            r@ == self.allowances.spec_get(owner, spender),
    {
        allowance(&self.allowances, owner, spender)
    }

    /// Sets `owner`'s allowance for `spender` to `value`; `owner` is the
    /// calling account, supplied by the dispatch layer.
    pub fn approve(&mut self, owner: ActorId, spender: ActorId, value: Amount) -> (mutated: bool)
        requires
            old(self).wf(),
        ensures
            final(self).wf(),
            mutated == (old(self).allowances.spec_get(owner, spender) != value@),
            forall|b: ActorId, q: ActorId| #[trigger] final(self).allowances.spec_get(b, q)
                == if b == owner && q == spender {
                    value@
                } else {
                    old(self).allowances.spec_get(b, q)
                },
            final(self).balances == old(self).balances,
            final(self).total_supply == old(self).total_supply,
            old(self).conserves() ==> final(self).conserves(),
    {
        approve(&mut self.allowances, owner, spender, value)
    }

    /// The balance of `owner`.
    pub fn balance_of(&self, owner: ActorId) -> (r: Amount)
        requires
            self.wf(),
        ensures
            r@ == self.balances.spec_get(owner),
    {
        balance_of(&self.balances, owner)
    }

    /// The token's decimal count.
    pub fn decimals(&self) -> (r: u8)
        ensures
            r == self.meta.decimals,
    {
        self.meta.decimals
    }

    /// The token's name.
    pub fn name(&self) -> (r: String)
        ensures
            r@ == self.meta.name@,
    {
        self.meta.name.clone()
    }

    /// The token's symbol.
    pub fn symbol(&self) -> (r: String)
        ensures
            r@ == self.meta.symbol@,
    {
        self.meta.symbol.clone()
    }

    /// The aggregate issuance.
    pub fn total_supply(&self) -> (r: Amount)
        ensures
            r == self.total_supply,
    {
        self.total_supply
    }

    /// Moves `value` from `from` (the calling account) to `to`.
    pub fn transfer(&mut self, from: ActorId, to: ActorId, value: Amount) -> (r: Result<
        bool,
        Error,
    >)
        requires
            old(self).wf(),
        ensures
            final(self).wf(),
            (match r {
                Ok(true) => value@ > 0 && from != to
                    && old(self).balances.spec_get(from) >= value@
                    && old(self).balances.spec_get(to) + value@ < amount_limit(),
                Ok(false) => value@ == 0
                    || (from == to && old(self).balances.spec_get(from) >= value@),
                Err(Error::InsufficientBalance) => value@ > 0
                    && old(self).balances.spec_get(from) < value@,
                Err(Error::NumericOverflow) => value@ > 0 && from != to
                    && old(self).balances.spec_get(from) >= value@
                    && old(self).balances.spec_get(to) + value@ >= amount_limit(),
                Err(Error::InsufficientAllowance) => false,
            }),
            r == Ok::<bool, Error>(true) ==> forall|b: ActorId|
                #[trigger] final(self).balances.spec_get(b)
                    == if b == from {
                        (old(self).balances.spec_get(from) - value@) as nat
                    } else if b == to {
                        (old(self).balances.spec_get(to) + value@) as nat
                    } else {
                        old(self).balances.spec_get(b)
                    },
            r != Ok::<bool, Error>(true) ==> final(self).balances@ == old(self).balances@,
            final(self).allowances == old(self).allowances,
            final(self).total_supply == old(self).total_supply,
            old(self).conserves() ==> final(self).conserves(),
    {
        transfer(&mut self.balances, from, to, value)
    }

    /// Moves `value` from `from` to `to` on the strength of the calling
    /// account `spender`'s allowance from `from`.
    pub fn from_transfer(
        &mut self,
        spender: ActorId,
        from: ActorId,
        to: ActorId,
        value: Amount,
    ) -> (r: Result<bool, Error>)
        requires
            old(self).wf(),
        ensures
            final(self).wf(),
            (match r {
                Ok(true) => value@ > 0 && old(self).allowances.spec_get(from, spender) >= value@
                    && old(self).balances.spec_get(from) >= value@
                    && (from == to || old(self).balances.spec_get(to) + value@ < amount_limit()),
                Ok(false) => value@ == 0,
                Err(Error::InsufficientAllowance) => value@ > 0
                    && old(self).allowances.spec_get(from, spender) < value@,
                Err(Error::InsufficientBalance) => value@ > 0
                    && old(self).allowances.spec_get(from, spender) >= value@
                    && old(self).balances.spec_get(from) < value@,
                Err(Error::NumericOverflow) => value@ > 0
                    && old(self).allowances.spec_get(from, spender) >= value@
                    && old(self).balances.spec_get(from) >= value@ && from != to
                    && old(self).balances.spec_get(to) + value@ >= amount_limit(),
            }),
            r == Ok::<bool, Error>(true) ==> forall|b: ActorId, q: ActorId|
                #[trigger] final(self).allowances.spec_get(b, q)
                    == if b == from && q == spender {
                        (old(self).allowances.spec_get(from, spender) - value@) as nat
                    } else {
                        old(self).allowances.spec_get(b, q)
                    },
            r == Ok::<bool, Error>(true) ==> forall|b: ActorId|
                #[trigger] final(self).balances.spec_get(b)
                    == if from == to {
                        old(self).balances.spec_get(b)
                    } else if b == from {
                        (old(self).balances.spec_get(from) - value@) as nat
                    } else if b == to {
                        (old(self).balances.spec_get(to) + value@) as nat
                    } else {
                        old(self).balances.spec_get(b)
                    },
            r != Ok::<bool, Error>(true) ==> final(self).allowances@ == old(self).allowances@
                && final(self).balances@ == old(self).balances@,
            final(self).total_supply == old(self).total_supply,
            old(self).conserves() ==> final(self).conserves(),
    {
        transfer_from(&mut self.allowances, &mut self.balances, spender, from, to, value)
    }

    /// Overwrites `owner`'s balance with `new_balance` and adjusts the total
    /// supply by the signed difference, saturating and never below zero.
    /// A deliberate escape hatch for migration and testing: it bypasses the
    /// mint cap, and its saturating adjustment is intentionally weaker than
    /// the strict conservation kept by mint and burn.
    pub fn set_balance(&mut self, owner: ActorId, new_balance: Amount) -> (mutated: bool)
        requires
            old(self).wf(),
        ensures
            final(self).wf(),
            mutated == (old(self).balances.spec_get(owner) != new_balance@),
            !mutated ==> final(self).balances@ == old(self).balances@
                && final(self).total_supply == old(self).total_supply,
            mutated ==> forall|b: ActorId| #[trigger] final(self).balances.spec_get(b)
                == if b == owner {
                    new_balance@
                } else {
                    old(self).balances.spec_get(b)
                },
            mutated ==> final(self).total_supply@ == spec_adjusted_total(
                old(self).total_supply@,
                old(self).balances.spec_get(owner),
                new_balance@,
            ),
            final(self).allowances == old(self).allowances,
            old(self).conserves() && old(self).balances.sum()
                - old(self).balances.spec_get(owner) + new_balance@ < amount_limit()
                ==> final(self).conserves(),
    {
        let balance = balance_of(&self.balances, owner);
        if balance.eq_val(&new_balance) {
            return false;
        }
        proof {
            crate::maps::lemma_bal_get_le_sum(self.balances@, owner);
        }
        let new_total = if new_balance.lt(&balance) {
            self.total_supply.saturating_sub(balance.saturating_sub(new_balance))
        } else {
            self.total_supply.saturating_add(new_balance.saturating_sub(balance))
        };
        self.balances.set(owner, new_balance);
        self.total_supply = new_total;
        true
    }
}

/// Approving the same value twice in a row: the first call leaves the
/// allowance of (owner, spender) at exactly `value`, so an immediately
/// repeated `approve(owner, spender, value)` — whose `mutated` result is
/// exactly "the stored allowance differed from `value`" — reports no
/// mutation the second time.
pub proof fn lemma_approve_idempotent(
    before: AllowancesMap,
    after: AllowancesMap,
    owner: ActorId,
    spender: ActorId,
    value: nat,
)
    requires
        // `after` is `before` once approve(owner, spender, value) ran:
        forall|b: ActorId, q: ActorId| #[trigger] after.spec_get(b, q)
            == if b == owner && q == spender {
                value
            } else {
                before.spec_get(b, q)
            },
    ensures
        after.spec_get(owner, spender) == value,
        !(after.spec_get(owner, spender) != value),
{
}

/// The total supply after a `set_balance` that rewrote a balance from
/// `old_balance` to `new_balance`: shifted by the signed difference,
/// saturating at zero below and at 2^256 - 1 above.
pub open spec fn spec_adjusted_total(total: nat, old_balance: nat, new_balance: nat) -> nat {
    if old_balance >= new_balance {
        if total >= old_balance - new_balance {
            (total - (old_balance - new_balance)) as nat
        } else {
            0
        }
    } else {
        if total + (new_balance - old_balance) < amount_limit() {
            (total + (new_balance - old_balance)) as nat
        } else {
            (amount_limit() - 1) as nat
        }
    }
}

} // verus!
