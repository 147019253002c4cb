//! The pure privileged ledger operations: mint, burn and batch transfer
//! over raw maps and the total-supply counter, plus map introspection. The
//! orchestration layer wraps these with the pause gate and role checks.

use vstd::prelude::*;

use crate::actor::ActorId;
use crate::admin::utils::Error;
use crate::admin::AdditionalMeta;
use crate::amount::{amount_limit, Amount};
use crate::erc20::balance_of;
use crate::maps::{lemma_bal_get_lt_limit, AllowancesMap, BalancesMap};

verus! {

/// Credits `to` with `value` and raises the total supply by `value`,
/// atomically: either both happen or neither. Fails with `NumericOverflow`
/// when the new total or the new balance would not fit, and with
/// `MaxSupplyReached` when the new total would exceed the supply cap.
pub fn mint(
    balances: &mut BalancesMap,
    meta: &AdditionalMeta,
    total_supply: &mut Amount,
    to: ActorId,
    value: Amount,
) -> (r: Result<bool, Error>)
    requires
        old(balances).wf(),
    ensures
        final(balances).wf(),
        (match r {
            Ok(false) => value@ == 0,
            Ok(true) => value@ > 0 && old(total_supply)@ + value@ < amount_limit()
                && old(total_supply)@ + value@ <= meta.max_supply@
                && old(balances).spec_get(to) + value@ < amount_limit(),
            Err(Error::NumericOverflow) => value@ > 0
                && (old(total_supply)@ + value@ >= amount_limit()
                    || (old(total_supply)@ + value@ <= meta.max_supply@
                        && old(balances).spec_get(to) + value@ >= amount_limit())),
            Err(Error::MaxSupplyReached) => value@ > 0
                && old(total_supply)@ + value@ < amount_limit()
                && old(total_supply)@ + value@ > meta.max_supply@,
            _ => false,
        }),
        r == Ok::<bool, Error>(true) ==> forall|b: ActorId|
            #[trigger] final(balances).spec_get(b)
                == if b == to {
                    (old(balances).spec_get(to) + value@) as nat
                } else {
                    old(balances).spec_get(b)
                },
        r == Ok::<bool, Error>(true) ==> final(total_supply)@ == old(total_supply)@ + value@
            && final(balances).sum() == old(balances).sum() + value@,
        r != Ok::<bool, Error>(true) ==> final(balances)@ == old(balances)@
            && *final(total_supply) == *old(total_supply),
{
    if value.is_zero() {
        return Ok(false);
    }
    let new_total_supply = match total_supply.checked_add(value) {
        Some(v) => v,
        None => {
            return Err(Error::NumericOverflow);
        },
    };
    if new_total_supply.le(&meta.max_supply) {
        let new_to = match balance_of(balances, to).checked_add(value) {
            Some(v) => v,
            None => {
                return Err(Error::NumericOverflow);
            },
        };
        balances.set(to, new_to);
    } else {
        return Err(Error::MaxSupplyReached);
    }
    *total_supply = new_total_supply;
    Ok(true)
}

/// Debits `from` by `value` (removing the entry when it reaches zero) and
/// lowers the total supply by `value`, atomically. Fails with `Underflow`
/// when the total supply is below `value`, and with `InsufficientBalance`
/// when `from`'s balance is.
pub fn burn(
    balances: &mut BalancesMap,
    total_supply: &mut Amount,
    from: ActorId,
    value: Amount,
) -> (r: Result<bool, Error>)
    requires
        old(balances).wf(),
    ensures
        final(balances).wf(),
        (match r {
            Ok(false) => value@ == 0,
            Ok(true) => value@ > 0 && old(total_supply)@ >= value@
                && old(balances).spec_get(from) >= value@,
            Err(Error::Underflow) => value@ > 0 && old(total_supply)@ < value@,
            Err(Error::InsufficientBalance) => value@ > 0 && old(total_supply)@ >= value@
                && old(balances).spec_get(from) < value@,
            _ => false,
        }),
        r == Ok::<bool, Error>(true) ==> forall|b: ActorId|
            #[trigger] final(balances).spec_get(b)
                == if b == from {
                    (old(balances).spec_get(from) - value@) as nat
                } else {
                    old(balances).spec_get(b)
                },
        r == Ok::<bool, Error>(true) ==> final(total_supply)@ == old(total_supply)@ - value@
            && final(balances).sum() == old(balances).sum() - value@,
        r != Ok::<bool, Error>(true) ==> final(balances)@ == old(balances)@
            && *final(total_supply) == *old(total_supply),
{
    if value.is_zero() {
        return Ok(false);
    }
    let new_total_supply = match total_supply.checked_sub(value) {
        Some(v) => v,
        None => {
            return Err(Error::Underflow);
        },
    };
    let new_from = match balance_of(balances, from).checked_sub(value) {
        Some(v) => v,
        None => {
            return Err(Error::InsufficientBalance);
        },
    };
    balances.set(from, new_from);
    *total_supply = new_total_supply;
    Ok(true)
}

/// How many times `a` occurs among the recipients `s`.
pub open spec fn occurrences(s: Seq<ActorId>, a: ActorId) -> nat
    decreases s.len(),
{
    if s.len() == 0 {
        0
    } else {
        occurrences(s.drop_last(), a) + if s.last() == a {
            1nat
        } else {
            0nat
        }
    }
}

/// Occurrence counts over prefixes grow one step at a time.
pub proof fn lemma_occurrences_extend(s: Seq<ActorId>, i: int, a: ActorId)
    requires
        0 <= i < s.len(),
    ensures
        occurrences(s.take(i + 1), a) == occurrences(s.take(i), a) + if s[i] == a {
            1nat
        } else {
            0nat
        },
{
    assert(s.take(i + 1).drop_last() =~= s.take(i));
    assert(s.take(i + 1).last() == s[i]);
}

/// Occurrence counts are monotone in the prefix length.
pub proof fn lemma_occurrences_prefix_le(s: Seq<ActorId>, i: int, j: int, a: ActorId)
    requires
        0 <= i <= j <= s.len(),
    ensures
        occurrences(s.take(i), a) <= occurrences(s.take(j), a),
    decreases j - i,
{
    if i < j {
        lemma_occurrences_prefix_le(s, i, j - 1, a);
        lemma_occurrences_extend(s, j - 1, a);
    }
}

/// The balance of `b` once `from` has been debited by `total`.
pub open spec fn spec_debited(m: BalancesMap, from: ActorId, total: nat, b: ActorId) -> nat {
    if b == from {
        (m.spec_get(from) - total) as nat
    } else {
        m.spec_get(b)
    }
}

/// Whether, after debiting `from` by `total`, crediting every recipient in
/// `to` with `value` keeps every balance below 2^256.
pub open spec fn credits_fit(
    m: BalancesMap,
    from: ActorId,
    total: nat,
    to: Seq<ActorId>,
    value: nat,
) -> bool {
    forall|j: int|
        0 <= j < to.len() ==> spec_debited(m, from, total, #[trigger] to[j])
            + value * occurrences(to, to[j]) < amount_limit()
}

/// Credits every recipient with `value` and debits `from` once by the
/// required total `value * count(to)`. The required total is checked
/// against `from`'s balance before any credit is applied; partial
/// application is never observable, on any path.
pub fn transfer_to_users(
    balances: &mut BalancesMap,
    from: ActorId,
    to: Vec<ActorId>,
    value: Amount,
) -> (r: Result<bool, Error>)
    requires
        old(balances).wf(),
    ensures
        final(balances).wf(),
        (match r {
            Ok(false) => value@ == 0,
            Ok(true) => value@ > 0 && old(balances).spec_get(from) >= value@ * to@.len()
                && credits_fit(
                *old(balances),
                from,
                (value@ * to@.len()) as nat,
                to@,
                value@,
            ),
            Err(Error::InsufficientBalance) => value@ > 0
                && old(balances).spec_get(from) < value@ * to@.len(),
            Err(Error::NumericOverflow) => value@ > 0
                && old(balances).spec_get(from) >= value@ * to@.len() && !credits_fit(
                *old(balances),
                from,
                (value@ * to@.len()) as nat,
                to@,
                value@,
            ),
            _ => false,
        }),
        r == Ok::<bool, Error>(true) ==> forall|b: ActorId|
            #[trigger] final(balances).spec_get(b)
                == spec_debited(*old(balances), from, (value@ * to@.len()) as nat, b)
                + value@ * occurrences(to@, b),
        r != Ok::<bool, Error>(true) ==> final(balances)@ == old(balances)@,
        final(balances).sum() == old(balances).sum(),
{
    if value.is_zero() {
        return Ok(false);
    }
    let n = to.len();
    let ghost total_nat: nat = (value@ * to@.len()) as nat;

    // The required total, by repeated checked addition; when it does not
    // even fit in 256 bits, no balance can cover it.
    let mut required = Amount::zero();
    let mut i: usize = 0;
    while i < n
        invariant
            n == to@.len(),
            i <= n,
            value@ > 0,
            old(balances).wf(),
            *balances == *old(balances),
            required@ == value@ * i,
        decreases n - i,
    {
        required = match required.checked_add(value) {
            Some(v) => v,
            None => {
                proof {
                    lemma_bal_get_lt_limit(old(balances)@, from);
                    assert(value@ * (i as nat) + value@ == value@ * ((i + 1) as nat))
                        by (nonlinear_arith);
                    assert(value@ * ((i + 1) as nat) <= value@ * (n as nat)) by (nonlinear_arith)
                        requires
                            value@ >= 0,
                            i + 1 <= n,
                    ;
                }
                return Err(Error::InsufficientBalance);
            },
        };
        proof {
            assert(value@ * (i as nat) + value@ == value@ * ((i + 1) as nat))
                by (nonlinear_arith);
        }
        i = i + 1;
    }

    let new_from = match balance_of(balances, from).checked_sub(required) {
        Some(v) => v,
        None => {
            return Err(Error::InsufficientBalance);
        },
    };

    // All-or-nothing: work on a copy, commit only on full success.
    let mut work = balances.duplicate();
    work.set(from, new_from);
    proof {
        assert forall|b: ActorId| #[trigger] work.spec_get(b)
            == spec_debited(*old(balances), from, total_nat, b)
                + value@ * occurrences(to@.take(0), b) by {
            assert(to@.take(0) =~= Seq::<ActorId>::empty());
            assert(occurrences(to@.take(0), b) == 0);
        }
    }
    let mut i: usize = 0;
    while i < n
        invariant
            n == to@.len(),
            i <= n,
            value@ > 0,
            old(balances).wf(),
            work.wf(),
            total_nat == (value@ * to@.len()) as nat,
            old(balances).spec_get(from) >= total_nat,
            forall|b: ActorId| #[trigger] work.spec_get(b)
                == spec_debited(*old(balances), from, total_nat, b)
                    + value@ * occurrences(to@.take(i as int), b),
            work.sum() == old(balances).sum() - total_nat + value@ * i,
        decreases n - i,
    {
        let user_id = to[i];
        let current = work.get(&user_id);
        let new_to = match current.checked_add(value) {
            Some(v) => v,
            None => {
                proof {
                    lemma_occurrences_extend(to@, i as int, user_id);
                    lemma_occurrences_prefix_le(to@, i as int + 1, n as int, user_id);
                    assert(to@.take(n as int) =~= to@);
                    let c1 = occurrences(to@.take(i as int), user_id);
                    let c2 = occurrences(to@, user_id);
                    assert(c2 >= c1 + 1);
                    assert(value@ * c2 >= value@ * c1 + value@) by (nonlinear_arith)
                        requires
                            value@ >= 0,
                            c2 >= c1 + 1,
                    ;
                    assert(spec_debited(*old(balances), from, total_nat, user_id)
                        + value@ * c2 >= amount_limit());
                }
                return Err(Error::NumericOverflow);
            },
        };
        work.set(user_id, new_to);
        proof {
            assert(value@ * (i as nat) + value@ == value@ * ((i + 1) as nat))
                by (nonlinear_arith);
            lemma_occurrences_extend(to@, i as int, user_id);
            assert forall|b: ActorId| #[trigger] work.spec_get(b)
                == spec_debited(*old(balances), from, total_nat, b)
                    + value@ * occurrences(to@.take(i as int + 1), b) by {
                lemma_occurrences_extend(to@, i as int, b);
                if b == user_id {
                    let c1 = occurrences(to@.take(i as int), b);
                    assert(value@ * (c1 + 1) == value@ * c1 + value@) by (nonlinear_arith);
                }
            }
        }
        i = i + 1;
    }
    proof {
        assert(to@.take(n as int) =~= to@);
        // Every final balance fits, so the credits fit.
        assert forall|j: int|
            0 <= j < to@.len() implies spec_debited(*old(balances), from, total_nat, #[trigger] to@[j])
                + value@ * occurrences(to@, to@[j]) < amount_limit() by {
            lemma_bal_get_lt_limit(work@, to@[j]);
            assert(work.spec_get(to@[j]) == spec_debited(*old(balances), from, total_nat, to@[j])
                + value@ * occurrences(to@, to@[j]));
        }
    }
    *balances = work;
    Ok(true)
}

/// Introspection of map sizes and reserved capacities, for
/// capacity-planning callers: ((allowances len, cap), (balances len, cap)).
pub fn maps_data(allowances: &AllowancesMap, balances: &BalancesMap) -> (r: (
    (usize, usize),
    (usize, usize),
))
    ensures
        r.0.0 == allowances@.len(),
        r.0.1 >= r.0.0,
        r.1.0 == balances@.len(),
        r.1.1 >= r.1.0,
{
    ((allowances.len(), allowances.capacity()), (balances.len(), balances.capacity()))
}

/// Pre-allocates allowance capacity; a pure performance hint.
pub fn allowances_reserve(allowances: &mut AllowancesMap, additional: usize)
    ensures
        final(allowances)@ == old(allowances)@,
{
    allowances.reserve(additional)
}

/// Pre-allocates balance capacity; a pure performance hint.
pub fn balances_reserve(balances: &mut BalancesMap, additional: usize)
    ensures
        final(balances)@ == old(balances)@,
{
    balances.reserve(additional)
}

/// How many entries a page starting at `skip` with width `take` holds, out
/// of `len` entries in all.
pub open spec fn spec_page_len(len: nat, skip: nat, take: nat) -> nat {
    if skip >= len {
        0
    } else if skip + take <= len {
        take
    } else {
        (len - skip) as nat
    }
}

/// A page of the allowances map: up to `take` entries starting at `skip`.
pub fn allowances(map: &AllowancesMap, skip: usize, take: usize) -> (r: Vec<
    (ActorId, ActorId, Amount),
>)
    ensures
        r@.len() == spec_page_len(map@.len(), skip as nat, take as nat),
        forall|i: int| 0 <= i < r@.len() ==> (#[trigger] r@[i]) == map@[skip + i],
{
    let len = map.len();
    let start = if skip > len {
        len
    } else {
        skip
    };
    let width = if take > len - start {
        len - start
    } else {
        take
    };
    let mut out: Vec<(ActorId, ActorId, Amount)> = Vec::new();
    let mut i: usize = 0;
    while i < width
        invariant
            len == map@.len(),
            start + width <= len,
            i <= width,
            out@.len() == i,
            forall|j: int| 0 <= j < i ==> (#[trigger] out@[j]) == map@[start + j],
        decreases width - i,
    {
        out.push(map.entry_at(start + i));
        i = i + 1;
    }
    out
}

/// A page of the balances map: up to `take` entries starting at `skip`.
pub fn balances(map: &BalancesMap, skip: usize, take: usize) -> (r: Vec<(ActorId, Amount)>)
    ensures
        r@.len() == spec_page_len(map@.len(), skip as nat, take as nat),
        forall|i: int| 0 <= i < r@.len() ==> (#[trigger] r@[i]) == map@[skip + i],
{
    let len = map.len();
    let start = if skip > len {
        len
    } else {
        skip
    };
    let width = if take > len - start {
        len - start
    } else {
        take
    };
    let mut out: Vec<(ActorId, Amount)> = Vec::new();
    let mut i: usize = 0;
    while i < width
        invariant
            len == map@.len(),
            start + width <= len,
            i <= width,
            out@.len() == i,
            forall|j: int| 0 <= j < i ==> (#[trigger] out@[j]) == map@[start + j],
        decreases width - i,
    {
        out.push(map.entry_at(start + i));
        i = i + 1;
    }
    out
}

} // verus!
