//! Verified map types for the ledger: the balances map and the allowances
//! map, stored as association lists with unique keys and no zero values.
//! Absence of a key is the canonical representation of the value zero, so the
//! maps stay proportional to the number of holders.

use vstd::prelude::*;

use crate::actor::ActorId;
use crate::amount::{amount_limit, Amount};

verus! {

/// Relies on Vec::capacity: a vector's reserved capacity is at least its
/// length, so the result is never below the element count.
#[verifier::external_body]
fn vec_capacity<T>(v: &Vec<T>) -> (r: usize)
    ensures
        r >= v@.len(),
{
    v.capacity()
}

// ----------------------------------------------------------------------
// Balances: account -> non-zero amount.
// ----------------------------------------------------------------------

/// No two entries share an account key.
pub open spec fn bal_keys_unique(s: Seq<(ActorId, Amount)>) -> bool {
    forall|i: int, j: int|
        0 <= i < j < s.len() ==> (#[trigger] s[i]).0 != (#[trigger] s[j]).0
}

/// No entry carries the amount zero.
pub open spec fn bal_no_zero(s: Seq<(ActorId, Amount)>) -> bool {
    forall|i: int| 0 <= i < s.len() ==> (#[trigger] s[i]).1@ != 0
}

/// The amount bound to `a`, or zero when no entry carries `a`.
pub open spec fn bal_get(s: Seq<(ActorId, Amount)>, a: ActorId) -> nat
    decreases s.len(),
{
    if s.len() == 0 {
        0
    } else if s.last().0 == a {
        s.last().1@
    } else {
        bal_get(s.drop_last(), a)
    }
}

/// The sum of all stored amounts.
pub open spec fn bal_sum(s: Seq<(ActorId, Amount)>) -> nat
    decreases s.len(),
{
    if s.len() == 0 {
        0
    } else {
        bal_sum(s.drop_last()) + s.last().1@
    }
}

/// With unique keys, the entry at index `i` is what lookup finds.
pub proof fn lemma_bal_get_found(s: Seq<(ActorId, Amount)>, i: int)
    requires
        bal_keys_unique(s),
        0 <= i < s.len(),
    ensures
        bal_get(s, s[i].0) == s[i].1@,
    decreases s.len(),
{
    if i < s.len() - 1 {
        assert(s.drop_last()[i] == s[i]);
        assert(bal_keys_unique(s.drop_last())) by {
            assert(forall|p: int, q: int|
                0 <= p < q < s.drop_last().len() ==> s.drop_last()[p] == s[p]
                    && s.drop_last()[q] == s[q]);
        }
        lemma_bal_get_found(s.drop_last(), i);
    }
}

/// When no entry carries `a`, lookup yields zero.
pub proof fn lemma_bal_get_absent(s: Seq<(ActorId, Amount)>, a: ActorId)
    requires
        forall|j: int| 0 <= j < s.len() ==> (#[trigger] s[j]).0 != a,
    ensures
        bal_get(s, a) == 0,
    decreases s.len(),
{
    if s.len() > 0 {
        assert(s[s.len() - 1].0 != a);
        assert(forall|j: int|
            0 <= j < s.drop_last().len() ==> (#[trigger] s.drop_last()[j]) == s[j]);
        lemma_bal_get_absent(s.drop_last(), a);
    }
}

/// One entry's amount never exceeds the sum of all amounts.
pub proof fn lemma_bal_get_le_sum(s: Seq<(ActorId, Amount)>, a: ActorId)
    ensures
        bal_get(s, a) <= bal_sum(s),
    decreases s.len(),
{
    if s.len() > 0 {
        lemma_bal_get_le_sum(s.drop_last(), a);
    }
}

/// A stored balance is always below 2^256.
pub proof fn lemma_bal_get_lt_limit(s: Seq<(ActorId, Amount)>, a: ActorId)
    ensures
        bal_get(s, a) < amount_limit(),
    decreases s.len(),
{
    if s.len() == 0 {
    } else if s.last().0 == a {
        crate::amount::lemma_amount_bound(s.last().1);
    } else {
        lemma_bal_get_lt_limit(s.drop_last(), a);
    }
}

/// Replacing the amount at index `i` rebinds exactly that entry's key and
/// shifts the sum by the difference.
pub proof fn lemma_bal_update(s: Seq<(ActorId, Amount)>, i: int, a: ActorId, v: Amount)
    requires
        bal_keys_unique(s),
        0 <= i < s.len(),
        s[i].0 == a,
    ensures
        bal_keys_unique(s.update(i, (a, v))),
        v@ != 0 && bal_no_zero(s) ==> bal_no_zero(s.update(i, (a, v))),
        forall|b: ActorId| #[trigger] bal_get(s.update(i, (a, v)), b)
            == if b == a { v@ } else { bal_get(s, b) },
        bal_sum(s.update(i, (a, v))) == bal_sum(s) - s[i].1@ + v@,
    decreases s.len(),
{
    let s2 = s.update(i, (a, v));
    assert(forall|j: int| 0 <= j < s.len() && j != i ==> s2[j] == s[j]);
    if i == s.len() - 1 {
        assert(s2.drop_last() =~= s.drop_last());
        assert(s2.last() == (a, v));
        assert forall|b: ActorId| #[trigger] bal_get(s2, b)
            == if b == a { v@ } else { bal_get(s, b) } by {
            if b != a {
                assert(bal_get(s2, b) == bal_get(s2.drop_last(), b));
                assert(bal_get(s, b) == bal_get(s.drop_last(), b));
            }
        }
    } else {
        assert(bal_keys_unique(s.drop_last())) by {
            assert(forall|p: int|
                0 <= p < s.drop_last().len() ==> (#[trigger] s.drop_last()[p]) == s[p]);
        }
        assert(s.drop_last()[i] == s[i]);
        lemma_bal_update(s.drop_last(), i, a, v);
        assert(s2.drop_last() =~= s.drop_last().update(i, (a, v)));
        assert(s2.last() == s.last());
        assert(s.last().0 != a);
        assert forall|b: ActorId| #[trigger] bal_get(s2, b)
            == if b == a { v@ } else { bal_get(s, b) } by {
            if b == s.last().0 {
            } else {
                assert(bal_get(s2, b) == bal_get(s2.drop_last(), b));
                assert(bal_get(s, b) == bal_get(s.drop_last(), b));
            }
        }
    }
}

/// Removing the entry at index `i` unbinds exactly that key and subtracts
/// its amount from the sum.
pub proof fn lemma_bal_remove(s: Seq<(ActorId, Amount)>, i: int)
    requires
        bal_keys_unique(s),
        0 <= i < s.len(),
    ensures
        bal_keys_unique(s.remove(i)),
        bal_no_zero(s) ==> bal_no_zero(s.remove(i)),
        forall|b: ActorId| #[trigger] bal_get(s.remove(i), b)
            == if b == s[i].0 { 0 } else { bal_get(s, b) },
        bal_sum(s.remove(i)) == bal_sum(s) - s[i].1@,
    decreases s.len(),
{
    let s2 = s.remove(i);
    s.remove_ensures(i);
    assert(bal_keys_unique(s2)) by {
        assert forall|p: int, q: int|
            0 <= p < q < s2.len() implies (#[trigger] s2[p]).0 != (#[trigger] s2[q]).0 by {
            let p0 = if p < i { p } else { p + 1 };
            let q0 = if q < i { q } else { q + 1 };
            assert(s2[p] == s[p0]);
            assert(s2[q] == s[q0]);
        }
    }
    if i == s.len() - 1 {
        assert(s2 =~= s.drop_last());
        assert forall|b: ActorId| #[trigger] bal_get(s2, b)
            == if b == s[i].0 { 0 } else { bal_get(s, b) } by {
            if b == s[i].0 {
                assert(forall|j: int|
                    0 <= j < s2.len() ==> (#[trigger] s2[j]).0 != b);
                lemma_bal_get_absent(s2, b);
            }
        }
    } else {
        assert(bal_keys_unique(s.drop_last())) by {
            assert(forall|p: int|
                0 <= p < s.drop_last().len() ==> (#[trigger] s.drop_last()[p]) == s[p]);
        }
        assert(s.drop_last()[i] == s[i]);
        lemma_bal_remove(s.drop_last(), i);
        assert(s2.drop_last() =~= s.drop_last().remove(i));
        assert(s2.last() == s.last());
        assert(s.last().0 != s[i].0);
        assert forall|b: ActorId| #[trigger] bal_get(s2, b)
            == if b == s[i].0 { 0 } else { bal_get(s, b) } by {
            if b == s.last().0 {
            } else {
                assert(bal_get(s2, b) == bal_get(s2.drop_last(), b));
                assert(bal_get(s, b) == bal_get(s.drop_last(), b));
            }
        }
    }
}

/// Appending an entry with a fresh key binds exactly that key and adds its
/// amount to the sum.
pub proof fn lemma_bal_push(s: Seq<(ActorId, Amount)>, a: ActorId, v: Amount)
    requires
        bal_keys_unique(s),
        forall|j: int| 0 <= j < s.len() ==> (#[trigger] s[j]).0 != a,
    ensures
        bal_keys_unique(s.push((a, v))),
        v@ != 0 && bal_no_zero(s) ==> bal_no_zero(s.push((a, v))),
        forall|b: ActorId| #[trigger] bal_get(s.push((a, v)), b)
            == if b == a { v@ } else { bal_get(s, b) },
        bal_sum(s.push((a, v))) == bal_sum(s) + v@,
{
    let s2 = s.push((a, v));
    assert(s2.drop_last() =~= s);
    assert(s2.last() == (a, v));
    assert(forall|j: int| 0 <= j < s.len() ==> (#[trigger] s2[j]) == s[j]);
}

/// The balances map: each holder's non-zero balance, keyed by account.
pub struct BalancesMap {
    entries: Vec<(ActorId, Amount)>,
}

impl View for BalancesMap {
    type V = Seq<(ActorId, Amount)>;

    closed spec fn view(&self) -> Seq<(ActorId, Amount)> {
        self.entries@
    }
}

impl BalancesMap {
    /// Well-formed: unique keys, and zero is represented by absence.
    pub open spec fn wf(self) -> bool {
        bal_keys_unique(self@) && bal_no_zero(self@)
    }

    /// The balance bound to `a` (zero when absent).
    pub open spec fn spec_get(self, a: ActorId) -> nat {
        bal_get(self@, a)
    }

    /// The sum of all stored balances.
    pub open spec fn sum(self) -> nat {
        bal_sum(self@)
    }

    /// An empty balances map.
    pub fn new() -> (r: BalancesMap)
        ensures
            r.wf(),
            r@.len() == 0,
            forall|b: ActorId| #[trigger] r.spec_get(b) == 0,
            r.sum() == 0,
    {
        BalancesMap { entries: Vec::new() }
    }

    /// The number of stored entries, one per holder.
    pub fn len(&self) -> (r: usize)
        ensures
            r == self@.len(),
    {
        self.entries.len()
    }

    /// The entry at position `i`, for paging through the map.
    pub fn entry_at(&self, i: usize) -> (r: (ActorId, Amount))
        requires
            i < self@.len(),
        ensures
            r == self@[i as int],
    {
        self.entries[i]
    }

    /// Reserves capacity for at least `additional` more entries; a pure
    /// performance hint, never observable in the logical state.
    pub fn reserve(&mut self, additional: usize)
        ensures
            final(self)@ == old(self)@,
    {
        self.entries.reserve(additional);
    }

    /// An exact copy of the map, for all-or-nothing batch mutation.
    pub fn duplicate(&self) -> (r: BalancesMap)
        ensures
            r@ == self@,
    {
        let n = self.entries.len();
        let mut out: Vec<(ActorId, Amount)> = Vec::new();
        let mut i: usize = 0;
        while i < n
            invariant
                n == self@.len(),
                i <= n,
                out@ == self@.take(i as int),
            decreases n - i,
        {
            out.push(self.entries[i]);
            proof {
                assert(self@.take(i as int).push(self@[i as int]) =~= self@.take(i + 1));
            }
            i = i + 1;
        }
        proof {
            assert(out@ =~= self@);
        }
        BalancesMap { entries: out }
    }

    /// The reserved capacity, never below the entry count.
    pub fn capacity(&self) -> (r: usize)
        ensures
            r >= self@.len(),
    {
        vec_capacity(&self.entries)
    }

    /// The index of the entry carrying `a`, if any.
    fn index_of(&self, a: &ActorId) -> (r: Option<usize>)
        ensures
            (match r {
                Some(i) => i < self@.len() && self@[i as int].0 == *a,
                None => forall|j: int| 0 <= j < self@.len() ==> (#[trigger] self@[j]).0 != *a,
            }),
    {
        let n = self.entries.len();
        let mut i: usize = 0;
        while i < n
            invariant
                n == self@.len(),
                i <= n,
                forall|j: int| 0 <= j < i ==> (#[trigger] self@[j]).0 != *a,
            decreases n - i,
        {
            let e = self.entries[i];
            if e.0 == *a {
                return Some(i);
            }
            i = i + 1;
        }
        None
    }

    /// The balance of `a`: the stored value, or zero when absent.
    pub fn get(&self, a: &ActorId) -> (r: Amount)
        requires
            self.wf(),
        ensures
            r@ == self.spec_get(*a),
    {
        match self.index_of(a) {
            Some(i) => {
                proof {
                    lemma_bal_get_found(self@, i as int);
                }
                self.entries[i].1
            },
            None => {
                proof {
                    lemma_bal_get_absent(self@, *a);
                }
                Amount::zero()
            },
        }
    }

    /// Binds `a` to `v`, removing the entry instead when `v` is zero.
    pub fn set(&mut self, a: ActorId, v: Amount)
        requires
            old(self).wf(),
        ensures
            final(self).wf(),
            forall|b: ActorId| #[trigger] final(self).spec_get(b)
                == if b == a { v@ } else { old(self).spec_get(b) },
            final(self).sum() == old(self).sum() - old(self).spec_get(a) + v@,
    {
        match self.index_of(&a) {
            Some(i) => {
                proof {
                    lemma_bal_get_found(self@, i as int);
                }
                if v.is_zero() {
                    proof {
                        lemma_bal_remove(self@, i as int);
                    }
                    let _ = self.entries.remove(i);
                } else {
                    proof {
                        lemma_bal_update(self@, i as int, a, v);
                    }
                    self.entries[i] = (a, v);
                }
            },
            None => {
                proof {
                    lemma_bal_get_absent(self@, a);
                }
                if !v.is_zero() {
                    proof {
                        lemma_bal_push(self@, a, v);
                    }
                    self.entries.push((a, v));
                }
            },
        }
    }
}

// ----------------------------------------------------------------------
// Allowances: (owner, spender) -> non-zero amount.
// ----------------------------------------------------------------------

/// No two entries share an (owner, spender) key pair.
pub open spec fn alw_keys_unique(s: Seq<(ActorId, ActorId, Amount)>) -> bool {
    forall|i: int, j: int|
        0 <= i < j < s.len() ==> ((#[trigger] s[i]).0 != (#[trigger] s[j]).0 || s[i].1 != s[j].1)
}

/// No entry carries the amount zero.
pub open spec fn alw_no_zero(s: Seq<(ActorId, ActorId, Amount)>) -> bool {
    forall|i: int| 0 <= i < s.len() ==> (#[trigger] s[i]).2@ != 0
}

/// The amount bound to (owner, spender), or zero when no entry carries it.
pub open spec fn alw_get(s: Seq<(ActorId, ActorId, Amount)>, o: ActorId, p: ActorId) -> nat
    decreases s.len(),
{
    if s.len() == 0 {
        0
    } else if s.last().0 == o && s.last().1 == p {
        s.last().2@
    } else {
        alw_get(s.drop_last(), o, p)
    }
}

/// With unique key pairs, the entry at index `i` is what lookup finds.
pub proof fn lemma_alw_get_found(s: Seq<(ActorId, ActorId, Amount)>, i: int)
    requires
        alw_keys_unique(s),
        0 <= i < s.len(),
    ensures
        alw_get(s, s[i].0, s[i].1) == s[i].2@,
    decreases s.len(),
{
    if i < s.len() - 1 {
        assert(s.drop_last()[i] == s[i]);
        assert(alw_keys_unique(s.drop_last())) by {
            assert(forall|p: int|
                0 <= p < s.drop_last().len() ==> (#[trigger] s.drop_last()[p]) == s[p]);
        }
        lemma_alw_get_found(s.drop_last(), i);
    }
}

/// When no entry carries (o, p), lookup yields zero.
pub proof fn lemma_alw_get_absent(s: Seq<(ActorId, ActorId, Amount)>, o: ActorId, p: ActorId)
    requires
        forall|j: int| 0 <= j < s.len() ==> ((#[trigger] s[j]).0 != o || s[j].1 != p),
    ensures
        alw_get(s, o, p) == 0,
    decreases s.len(),
{
    if s.len() > 0 {
        assert(forall|j: int|
            0 <= j < s.drop_last().len() ==> (#[trigger] s.drop_last()[j]) == s[j]);
        lemma_alw_get_absent(s.drop_last(), o, p);
    }
}

/// Replacing the amount at index `i` rebinds exactly that entry's key pair.
pub proof fn lemma_alw_update(
    s: Seq<(ActorId, ActorId, Amount)>,
    i: int,
    o: ActorId,
    p: ActorId,
    v: Amount,
)
    requires
        alw_keys_unique(s),
        0 <= i < s.len(),
        s[i].0 == o,
        s[i].1 == p,
    ensures
        alw_keys_unique(s.update(i, (o, p, v))),
        v@ != 0 && alw_no_zero(s) ==> alw_no_zero(s.update(i, (o, p, v))),
        forall|b: ActorId, q: ActorId| #[trigger] alw_get(s.update(i, (o, p, v)), b, q)
            == if b == o && q == p { v@ } else { alw_get(s, b, q) },
    decreases s.len(),
{
    let s2 = s.update(i, (o, p, v));
    assert(forall|j: int| 0 <= j < s.len() && j != i ==> s2[j] == s[j]);
    if i == s.len() - 1 {
        assert(s2.drop_last() =~= s.drop_last());
        assert(s2.last() == (o, p, v));
        assert forall|b: ActorId, q: ActorId| #[trigger] alw_get(s2, b, q)
            == if b == o && q == p { v@ } else { alw_get(s, b, q) } by {
            if !(b == o && q == p) {
                assert(alw_get(s2, b, q) == alw_get(s2.drop_last(), b, q));
                assert(alw_get(s, b, q) == alw_get(s.drop_last(), b, q));
            }
        }
    } else {
        assert(alw_keys_unique(s.drop_last())) by {
            assert(forall|k: int|
                0 <= k < s.drop_last().len() ==> (#[trigger] s.drop_last()[k]) == s[k]);
        }
        assert(s.drop_last()[i] == s[i]);
        lemma_alw_update(s.drop_last(), i, o, p, v);
        assert(s2.drop_last() =~= s.drop_last().update(i, (o, p, v)));
        assert(s2.last() == s.last());
        assert(s.last().0 != o || s.last().1 != p);
        assert forall|b: ActorId, q: ActorId| #[trigger] alw_get(s2, b, q)
            == if b == o && q == p { v@ } else { alw_get(s, b, q) } by {
            if b == s.last().0 && q == s.last().1 {
            } else {
                assert(alw_get(s2, b, q) == alw_get(s2.drop_last(), b, q));
                assert(alw_get(s, b, q) == alw_get(s.drop_last(), b, q));
            }
        }
    }
}

/// Removing the entry at index `i` unbinds exactly that key pair.
pub proof fn lemma_alw_remove(s: Seq<(ActorId, ActorId, Amount)>, i: int)
    requires
        alw_keys_unique(s),
        0 <= i < s.len(),
    ensures
        alw_keys_unique(s.remove(i)),
        alw_no_zero(s) ==> alw_no_zero(s.remove(i)),
        forall|b: ActorId, q: ActorId| #[trigger] alw_get(s.remove(i), b, q)
            == if b == s[i].0 && q == s[i].1 { 0 } else { alw_get(s, b, q) },
    decreases s.len(),
{
    let s2 = s.remove(i);
    s.remove_ensures(i);
    assert(alw_keys_unique(s2)) by {
        assert forall|p: int, q: int|
            0 <= p < q < s2.len() implies ((#[trigger] s2[p]).0 != (#[trigger] s2[q]).0
                || s2[p].1 != s2[q].1) by {
            let p0 = if p < i { p } else { p + 1 };
            let q0 = if q < i { q } else { q + 1 };
            assert(s2[p] == s[p0]);
            assert(s2[q] == s[q0]);
        }
    }
    if i == s.len() - 1 {
        assert(s2 =~= s.drop_last());
        assert forall|b: ActorId, q: ActorId| #[trigger] alw_get(s2, b, q)
            == if b == s[i].0 && q == s[i].1 { 0 } else { alw_get(s, b, q) } by {
            if b == s[i].0 && q == s[i].1 {
                assert(forall|j: int|
                    0 <= j < s2.len() ==> ((#[trigger] s2[j]).0 != b || s2[j].1 != q));
                lemma_alw_get_absent(s2, b, q);
            }
        }
    } else {
        assert(alw_keys_unique(s.drop_last())) by {
            assert(forall|k: int|
                0 <= k < s.drop_last().len() ==> (#[trigger] s.drop_last()[k]) == s[k]);
        }
        assert(s.drop_last()[i] == s[i]);
        lemma_alw_remove(s.drop_last(), i);
        assert(s2.drop_last() =~= s.drop_last().remove(i));
        assert(s2.last() == s.last());
        assert(s.last().0 != s[i].0 || s.last().1 != s[i].1);
        assert forall|b: ActorId, q: ActorId| #[trigger] alw_get(s2, b, q)
            == if b == s[i].0 && q == s[i].1 { 0 } else { alw_get(s, b, q) } by {
            if b == s.last().0 && q == s.last().1 {
            } else {
                assert(alw_get(s2, b, q) == alw_get(s2.drop_last(), b, q));
                assert(alw_get(s, b, q) == alw_get(s.drop_last(), b, q));
            }
        }
    }
}

/// Appending an entry with a fresh key pair binds exactly that pair.
pub proof fn lemma_alw_push(s: Seq<(ActorId, ActorId, Amount)>, o: ActorId, p: ActorId, v: Amount)
    requires
        alw_keys_unique(s),
        forall|j: int| 0 <= j < s.len() ==> ((#[trigger] s[j]).0 != o || s[j].1 != p),
    ensures
        alw_keys_unique(s.push((o, p, v))),
        v@ != 0 && alw_no_zero(s) ==> alw_no_zero(s.push((o, p, v))),
        forall|b: ActorId, q: ActorId| #[trigger] alw_get(s.push((o, p, v)), b, q)
            == if b == o && q == p { v@ } else { alw_get(s, b, q) },
{
    let s2 = s.push((o, p, v));
    assert(s2.drop_last() =~= s);
    assert(s2.last() == (o, p, v));
    assert(forall|j: int| 0 <= j < s.len() ==> (#[trigger] s2[j]) == s[j]);
}

/// The allowances map: what each spender may still move out of each owner's
/// balance, keyed by the (owner, spender) pair.
pub struct AllowancesMap {
    entries: Vec<(ActorId, ActorId, Amount)>,
}

impl View for AllowancesMap {
    type V = Seq<(ActorId, ActorId, Amount)>;

    closed spec fn view(&self) -> Seq<(ActorId, ActorId, Amount)> {
        self.entries@
    }
}

impl AllowancesMap {
    /// Well-formed: unique key pairs, and zero is represented by absence.
    pub open spec fn wf(self) -> bool {
        alw_keys_unique(self@) && alw_no_zero(self@)
    }

    /// The allowance bound to (owner, spender), zero when absent.
    pub open spec fn spec_get(self, o: ActorId, p: ActorId) -> nat {
        alw_get(self@, o, p)
    }

    /// An empty allowances map.
    pub fn new() -> (r: AllowancesMap)
        ensures
            r.wf(),
            r@.len() == 0,
            forall|b: ActorId, q: ActorId| #[trigger] r.spec_get(b, q) == 0,
    {
        AllowancesMap { entries: Vec::new() }
    }

    /// The number of stored entries, one per (owner, spender) pair.
    pub fn len(&self) -> (r: usize)
        ensures
            r == self@.len(),
    {
        self.entries.len()
    }

    /// The entry at position `i`, for paging through the map.
    pub fn entry_at(&self, i: usize) -> (r: (ActorId, ActorId, Amount))
        requires
            i < self@.len(),
        ensures
            r == self@[i as int],
    {
        self.entries[i]
    }

    /// Reserves capacity for at least `additional` more entries; a pure
    /// performance hint, never observable in the logical state.
    pub fn reserve(&mut self, additional: usize)
        ensures
            final(self)@ == old(self)@,
    {
        self.entries.reserve(additional);
    }

    /// The reserved capacity, never below the entry count.
    pub fn capacity(&self) -> (r: usize)
        ensures
            r >= self@.len(),
    {
        vec_capacity(&self.entries)
    }

    /// The index of the entry carrying (o, p), if any.
    fn index_of(&self, o: &ActorId, p: &ActorId) -> (r: Option<usize>)
        ensures
            (match r {
                Some(i) => i < self@.len() && self@[i as int].0 == *o && self@[i as int].1 == *p,
                None => forall|j: int|
                    0 <= j < self@.len() ==> ((#[trigger] self@[j]).0 != *o || self@[j].1 != *p),
            }),
    {
        let n = self.entries.len();
        let mut i: usize = 0;
        while i < n
            invariant
                n == self@.len(),
                i <= n,
                forall|j: int| 0 <= j < i ==> ((#[trigger] self@[j]).0 != *o || self@[j].1 != *p),
            decreases n - i,
        {
            let e = self.entries[i];
            if e.0 == *o && e.1 == *p {
                return Some(i);
            }
            i = i + 1;
        }
        None
    }

    /// The allowance of (o, p): the stored value, or zero when absent.
    pub fn get(&self, o: &ActorId, p: &ActorId) -> (r: Amount)
        requires
            self.wf(),
        ensures
            r@ == self.spec_get(*o, *p),
    {
        match self.index_of(o, p) {
            Some(i) => {
                proof {
                    lemma_alw_get_found(self@, i as int);
                }
                self.entries[i].2
            },
            None => {
                proof {
                    lemma_alw_get_absent(self@, *o, *p);
                }
                Amount::zero()
            },
        }
    }

    /// Binds (o, p) to `v`, removing the entry instead when `v` is zero.
    pub fn set(&mut self, o: ActorId, p: ActorId, v: Amount)
        requires
            old(self).wf(),
        ensures
            final(self).wf(),
            forall|b: ActorId, q: ActorId| #[trigger] final(self).spec_get(b, q)
                == if b == o && q == p { v@ } else { old(self).spec_get(b, q) },
    {
        match self.index_of(&o, &p) {
            Some(i) => {
                if v.is_zero() {
                    proof {
                        lemma_alw_remove(self@, i as int);
                    }
                    let _ = self.entries.remove(i);
                } else {
                    proof {
                        lemma_alw_update(self@, i as int, o, p, v);
                    }
                    self.entries[i] = (o, p, v);
                }
            },
            None => {
                proof {
                    lemma_alw_get_absent(self@, o, p);
                }
                if !v.is_zero() {
                    proof {
                        lemma_alw_push(self@, o, p, v);
                    }
                    self.entries.push((o, p, v));
                }
            },
        }
    }
}

} // verus!
