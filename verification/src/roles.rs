//! Role-based access control: a registry of role names mapped to role-kind
//! tags, and a store of which account holds which role. The registry keeps a
//! name bound to one tag forever; grants and revocations are idempotent.

use vstd::prelude::*;

use crate::actor::ActorId;

verus! {

/// Errors of the access-control operations.
#[derive(Clone, Copy, Debug, PartialEq, Eq, Structural)]
pub enum Error {
    BadOrigin,
    UnknownRole,
    DuplicateRole,
}

/// The role-kind tags, distinct per role definition by construction.
#[derive(Clone, Copy, Debug, PartialEq, Eq, Structural, Hash)]
pub enum RoleKind {
    FungibleAdmin,
    FungibleBurner,
    FungibleMinter,
    PauseAdmin,
}

/// The canonical name of each role kind.
pub open spec fn spec_role_name(kind: RoleKind) -> Seq<char> {
    match kind {
        RoleKind::FungibleAdmin => "FungibleAdmin"@,
        RoleKind::FungibleBurner => "FungibleBurner"@,
        RoleKind::FungibleMinter => "FungibleMinter"@,
        RoleKind::PauseAdmin => "PauseAdmin"@,
    }
}

/// Distinct role kinds carry distinct canonical names.
pub proof fn lemma_role_names_injective()
    ensures
        forall|k1: RoleKind, k2: RoleKind|
            spec_role_name(k1) == spec_role_name(k2) ==> k1 == k2,
{
    reveal_strlit("FungibleAdmin");
    reveal_strlit("FungibleBurner");
    reveal_strlit("FungibleMinter");
    reveal_strlit("PauseAdmin");
    assert("FungibleAdmin"@.len() == 13);
    assert("FungibleBurner"@.len() == 14);
    assert("FungibleMinter"@.len() == 14);
    assert("PauseAdmin"@.len() == 10);
    assert("FungibleBurner"@[8] != "FungibleMinter"@[8]);
}

/// The canonical name of `kind`, as an owned string.
pub fn role_name(kind: RoleKind) -> (r: String)
    ensures
        r@ == spec_role_name(kind),
{
    match kind {
        RoleKind::FungibleAdmin => "FungibleAdmin".to_owned(),
        RoleKind::FungibleBurner => "FungibleBurner".to_owned(),
        RoleKind::FungibleMinter => "FungibleMinter".to_owned(),
        RoleKind::PauseAdmin => "PauseAdmin".to_owned(),
    }
}

/// An event describing a successful role mutation, for the surrounding
/// notification sink.
#[derive(Clone, Debug, PartialEq, Eq)]
pub enum Event {
    RoleGranted { actor: ActorId, role: String },
    RoleRemoved { actor: ActorId, role: String },
}

/// One registry entry: a role name bound to its role-kind tag.
pub struct RoleEntry {
    pub name: String,
    pub kind: RoleKind,
}

/// One assignment: an account holding a role kind.
#[derive(Clone, Copy, Debug, PartialEq, Eq, Structural)]
pub struct RoleAssign {
    pub actor: ActorId,
    pub kind: RoleKind,
}

/// The registry binds each kind at most once, under its canonical name.
pub open spec fn registry_wf(s: Seq<RoleEntry>) -> bool {
    &&& forall|i: int|
        0 <= i < s.len() ==> (#[trigger] s[i]).name@ == spec_role_name(s[i].kind)
    &&& forall|i: int, j: int|
        0 <= i < j < s.len() ==> (#[trigger] s[i]).kind != (#[trigger] s[j]).kind
}

/// The assignment store holds each (account, kind) pair at most once.
pub open spec fn assigns_wf(s: Seq<RoleAssign>) -> bool {
    forall|i: int, j: int| 0 <= i < j < s.len() ==> (#[trigger] s[i]) != (#[trigger] s[j])
}

/// Whether some entry registers `kind`.
pub open spec fn registry_has_kind(s: Seq<RoleEntry>, kind: RoleKind) -> bool {
    exists|i: int| 0 <= i < s.len() && (#[trigger] s[i]).kind == kind
}

/// Whether some entry carries the name `n`.
pub open spec fn registry_has_name(s: Seq<RoleEntry>, n: Seq<char>) -> bool {
    exists|i: int| 0 <= i < s.len() && (#[trigger] s[i]).name@ == n
}

/// Whether `actor` holds `kind`.
pub open spec fn assigns_has(s: Seq<RoleAssign>, actor: ActorId, kind: RoleKind) -> bool {
    exists|i: int| 0 <= i < s.len() && (#[trigger] s[i]).actor == actor && s[i].kind == kind
}

/// The access-control service: the role registry and the assignment store,
/// owned as one explicit store.
pub struct Service {
    pub registry: Vec<RoleEntry>,
    pub assignments: Vec<RoleAssign>,
}

impl Service {
    /// Well-formed: canonical, unique registry entries and duplicate-free
    /// assignments.
    pub open spec fn wf(self) -> bool {
        registry_wf(self.registry@) && assigns_wf(self.assignments@)
    }

    /// Whether `kind` is registered.
    pub open spec fn spec_registered(self, kind: RoleKind) -> bool {
        registry_has_kind(self.registry@, kind)
    }

    /// Whether `actor` holds `kind`.
    pub open spec fn spec_has(self, actor: ActorId, kind: RoleKind) -> bool {
        assigns_has(self.assignments@, actor, kind)
    }

    /// A fresh store: nothing registered, nothing granted.
    pub fn new() -> (r: Service)
        ensures
            r.wf(),
            forall|k: RoleKind| !(#[trigger] r.spec_registered(k)),
            forall|a: ActorId, k: RoleKind| !(#[trigger] r.spec_has(a, k)),
            r.registry@.len() == 0,
    {
        Service { registry: Vec::new(), assignments: Vec::new() }
    }

    /// Initializes the role stores; an alias of `new` for explicit,
    /// one-time construction by the bootstrap layer.
    pub fn seed() -> (r: Service)
        ensures
            r.wf(),
            forall|k: RoleKind| !(#[trigger] r.spec_registered(k)),
            forall|a: ActorId, k: RoleKind| !(#[trigger] r.spec_has(a, k)),
            r.registry@.len() == 0,
    {
        Service::new()
    }

    /// The index of the registry entry named like `kind`, if any.
    fn registry_index_by_name(&self, name: &String) -> (r: Option<usize>)
        ensures
            (match r {
                Some(i) => i < self.registry@.len() && self.registry@[i as int].name@ == name@,
                None => forall|j: int|
                    0 <= j < self.registry@.len()
                        ==> (#[trigger] self.registry@[j]).name@ != name@,
            }),
    {
        let n = self.registry.len();
        let mut i: usize = 0;
        while i < n
            invariant
                n == self.registry@.len(),
                i <= n,
                forall|j: int| 0 <= j < i ==> (#[trigger] self.registry@[j]).name@ != name@,
            decreases n - i,
        {
            if self.registry[i].name.eq(name) {
                return Some(i);
            }
            i = i + 1;
        }
        None
    }

    /// Registers `kind` under its canonical name. A no-op success when the
    /// name is already bound to the same kind; under a well-formed registry
    /// the defensive duplicate check can never fire, so the call always
    /// succeeds.
    pub fn register_role(&mut self, kind: RoleKind) -> (r: Result<(), Error>)
        requires
            old(self).wf(),
        ensures
            final(self).wf(),
            r == Ok::<(), Error>(()),
            forall|k: RoleKind| #[trigger] final(self).spec_registered(k)
                == (old(self).spec_registered(k) || k == kind),
            final(self).assignments == old(self).assignments,
            old(self).spec_registered(kind) ==> final(self).registry@ == old(self).registry@,
            !old(self).spec_registered(kind) ==> final(self).registry@.len()
                == old(self).registry@.len() + 1
                && (forall|j: int| 0 <= j < old(self).registry@.len()
                    ==> (#[trigger] final(self).registry@[j]) == old(self).registry@[j])
                && final(self).registry@.last().kind == kind,
    {
        let name = role_name(kind);
        match self.registry_index_by_name(&name) {
            Some(i) => {
                proof {
                    lemma_role_names_injective();
                }
                if self.registry[i].kind != kind {
                    // Unreachable under the registry invariant: the entry's
                    // canonical name pins its kind.
                    proof {
                        assert(false);
                    }
                    return Err(Error::DuplicateRole);
                }
                Ok(())
            },
            None => {
                proof {
                    lemma_role_names_injective();
                    assert forall|k: RoleKind|
                        registry_has_kind(self.registry@.push(RoleEntry { name, kind }), k)
                            == (registry_has_kind(self.registry@, k) || k == kind) by {
                        let s2 = self.registry@.push(RoleEntry { name, kind });
                        assert(forall|j: int|
                            0 <= j < self.registry@.len()
                                ==> (#[trigger] s2[j]) == self.registry@[j]);
                        assert(s2[self.registry@.len() as int].kind == kind);
                        if registry_has_kind(self.registry@, k) {
                            let j = choose|j: int|
                                0 <= j < self.registry@.len()
                                    && (#[trigger] self.registry@[j]).kind == k;
                            assert(s2[j].kind == k);
                        }
                    }
                    // The fresh kind is absent, else its canonical name
                    // would already be present.
                    assert forall|j: int|
                        0 <= j < self.registry@.len()
                            implies (#[trigger] self.registry@[j]).kind != kind by {
                        assert(self.registry@[j].name@ == spec_role_name(self.registry@[j].kind));
                    }
                }
                self.registry.push(RoleEntry { name, kind });
                Ok(())
            },
        }
    }

    /// Checks that `kind` is registered: `UnknownRole` when it never was.
    /// The defensive `DuplicateRole` arm cannot fire under the registry
    /// invariant.
    pub fn ensure_role_registered(&self, kind: RoleKind) -> (r: Result<(), Error>)
        requires
            self.wf(),
        ensures
            (match r {
                Ok(()) => self.spec_registered(kind),
                Err(Error::UnknownRole) => !self.spec_registered(kind),
                Err(Error::BadOrigin) => false,
                Err(Error::DuplicateRole) => false,
            }),
    {
        let name = role_name(kind);
        match self.registry_index_by_name(&name) {
            Some(i) => {
                proof {
                    lemma_role_names_injective();
                }
                if self.registry[i].kind != kind {
                    proof {
                        assert(false);
                    }
                    return Err(Error::DuplicateRole);
                }
                proof {
                    assert(self.registry@[i as int].kind == kind);
                }
                Ok(())
            },
            None => {
                proof {
                    assert forall|j: int|
                        0 <= j < self.registry@.len()
                            implies (#[trigger] self.registry@[j]).kind != kind by {
                        assert(self.registry@[j].name@ == spec_role_name(self.registry@[j].kind));
                    }
                }
                Err(Error::UnknownRole)
            },
        }
    }

    /// The index of the (actor, kind) assignment, if present.
    fn assign_index(&self, actor: &ActorId, kind: RoleKind) -> (r: Option<usize>)
        ensures
            (match r {
                Some(i) => i < self.assignments@.len()
                    && self.assignments@[i as int].actor == *actor
                    && self.assignments@[i as int].kind == kind,
                None => forall|j: int|
                    0 <= j < self.assignments@.len()
                        ==> !((#[trigger] self.assignments@[j]).actor == *actor
                            && self.assignments@[j].kind == kind),
            }),
    {
        let n = self.assignments.len();
        let mut i: usize = 0;
        while i < n
            invariant
                n == self.assignments@.len(),
                i <= n,
                forall|j: int|
                    0 <= j < i ==> !((#[trigger] self.assignments@[j]).actor == *actor
                        && self.assignments@[j].kind == kind),
            decreases n - i,
        {
            let e = self.assignments[i];
            if e.actor == *actor && e.kind == kind {
                return Some(i);
            }
            i = i + 1;
        }
        None
    }

    /// Whether `actor` currently holds `kind`; a plain read.
    pub fn holds_role(&self, actor: ActorId, kind: RoleKind) -> (r: bool)
        ensures
            r == self.spec_has(actor, kind),
    {
        match self.assign_index(&actor, kind) {
            Some(_) => true,
            None => false,
        }
    }

    /// Grants `kind` to `actor` once `kind` is registered; reports whether
    /// the assignment store changed (granting a held role is a no-op).
    pub fn grant_role(&mut self, actor: ActorId, kind: RoleKind) -> (r: Result<bool, Error>)
        requires
            old(self).wf(),
        ensures
            final(self).wf(),
            final(self).registry == old(self).registry,
            (match r {
                Ok(changed) => old(self).spec_registered(kind)
                    && changed == !old(self).spec_has(actor, kind)
                    && (forall|a: ActorId, k: RoleKind| #[trigger] final(self).spec_has(a, k)
                        == (old(self).spec_has(a, k) || (a == actor && k == kind))),
                Err(e) => e == Error::UnknownRole && !old(self).spec_registered(kind)
                    && final(self).assignments == old(self).assignments,
            }),
    {
        match self.ensure_role_registered(kind) {
            Ok(()) => {},
            Err(e) => {
                return Err(e);
            },
        }
        match self.assign_index(&actor, kind) {
            Some(_) => {
                proof {
                    assert forall|a: ActorId, k: RoleKind| #[trigger] self.spec_has(a, k)
                        == (self.spec_has(a, k) || (a == actor && k == kind)) by {
                        if a == actor && k == kind {
                            assert(self.spec_has(actor, kind));
                        }
                    }
                }
                Ok(false)
            },
            None => {
                let entry = RoleAssign { actor, kind };
                proof {
                    let s = self.assignments@;
                    let s2 = s.push(entry);
                    assert(forall|j: int| 0 <= j < s.len() ==> (#[trigger] s2[j]) == s[j]);
                    assert(s2[s.len() as int] == entry);
                    assert forall|a: ActorId, k: RoleKind| #[trigger] assigns_has(s2, a, k)
                        == (assigns_has(s, a, k) || (a == actor && k == kind)) by {
                        if assigns_has(s, a, k) {
                            let j = choose|j: int|
                                0 <= j < s.len() && (#[trigger] s[j]).actor == a
                                    && s[j].kind == k;
                            assert(s2[j].actor == a && s2[j].kind == k);
                        }
                        if assigns_has(s2, a, k) && !(a == actor && k == kind) {
                            let j = choose|j: int|
                                0 <= j < s2.len() && (#[trigger] s2[j]).actor == a
                                    && s2[j].kind == k;
                            assert(j < s.len());
                            assert(s[j].actor == a && s[j].kind == k);
                        }
                    }
                }
                self.assignments.push(entry);
                Ok(true)
            },
        }
    }

    /// Revokes `kind` from `actor` once `kind` is registered; reports
    /// whether the assignment store changed (revoking an unheld role is a
    /// no-op).
    pub fn remove_role(&mut self, actor: ActorId, kind: RoleKind) -> (r: Result<bool, Error>)
        requires
            old(self).wf(),
        ensures
            final(self).wf(),
            final(self).registry == old(self).registry,
            (match r {
                Ok(changed) => old(self).spec_registered(kind)
                    && changed == old(self).spec_has(actor, kind)
                    && (forall|a: ActorId, k: RoleKind| #[trigger] final(self).spec_has(a, k)
                        == (old(self).spec_has(a, k) && !(a == actor && k == kind))),
                Err(e) => e == Error::UnknownRole && !old(self).spec_registered(kind)
                    && final(self).assignments == old(self).assignments,
            }),
    {
        match self.ensure_role_registered(kind) {
            Ok(()) => {},
            Err(e) => {
                return Err(e);
            },
        }
        match self.assign_index(&actor, kind) {
            Some(i) => {
                proof {
                    let s = self.assignments@;
                    let s2 = s.remove(i as int);
                    s.remove_ensures(i as int);
                    assert(assigns_wf(s2)) by {
                        assert forall|p: int, q: int|
                            0 <= p < q < s2.len() implies (#[trigger] s2[p])
                                != (#[trigger] s2[q]) by {
                            let p0 = if p < i { p } else { p + 1 };
                            let q0 = if q < i { q } else { q + 1 };
                            assert(s2[p] == s[p0]);
                            assert(s2[q] == s[q0]);
                        }
                    }
                    assert forall|a: ActorId, k: RoleKind| #[trigger] assigns_has(s2, a, k)
                        == (assigns_has(s, a, k) && !(a == actor && k == kind)) by {
                        if assigns_has(s2, a, k) {
                            let j = choose|j: int|
                                0 <= j < s2.len() && (#[trigger] s2[j]).actor == a
                                    && s2[j].kind == k;
                            let j0 = if j < i { j } else { j + 1 };
                            assert(s2[j] == s[j0]);
                            assert(s[j0].actor == a && s[j0].kind == k);
                            if a == actor && k == kind {
                                // Two distinct indices would carry the same
                                // pair, against the store invariant.
                                assert(s[j0] == s[i as int]);
                                assert(false);
                            }
                        }
                        if assigns_has(s, a, k) && !(a == actor && k == kind) {
                            let j = choose|j: int|
                                0 <= j < s.len() && (#[trigger] s[j]).actor == a
                                    && s[j].kind == k;
                            assert(j != i);
                            if j < i {
                                assert(s2[j] == s[j]);
                            } else {
                                assert(s2[j - 1] == s[j]);
                            }
                        }
                    }
                    assert(assigns_has(s, actor, kind));
                }
                let _ = self.assignments.remove(i);
                Ok(true)
            },
            None => {
                proof {
                    assert(!self.spec_has(actor, kind));
                    assert forall|a: ActorId, k: RoleKind| #[trigger] self.spec_has(a, k)
                        == (self.spec_has(a, k) && !(a == actor && k == kind)) by {
                        if self.spec_has(a, k) && a == actor && k == kind {
                            assert(false);
                        }
                    }
                }
                Ok(false)
            },
        }
    }

    /// The authorization gate: `Ok` exactly when `kind` is registered and
    /// `actor` holds it; `UnknownRole` when unregistered, else `BadOrigin`.
    pub fn ensure_has_role(&self, actor: ActorId, kind: RoleKind) -> (r: Result<(), Error>)
        requires
            self.wf(),
        ensures
            (match r {
                Ok(()) => self.spec_registered(kind) && self.spec_has(actor, kind),
                Err(Error::BadOrigin) => self.spec_registered(kind)
                    && !self.spec_has(actor, kind),
                Err(Error::UnknownRole) => !self.spec_registered(kind),
                Err(Error::DuplicateRole) => false,
            }),
    {
        match self.ensure_role_registered(kind) {
            Ok(()) => {},
            Err(e) => {
                return Err(e);
            },
        }
        if self.holds_role(actor, kind) {
            Ok(())
        } else {
            Err(Error::BadOrigin)
        }
    }

    /// Looks a role up by name: `UnknownRole` when the name was never
    /// registered, else whether `actor` holds the named role.
    pub fn has_role_by_name(&self, actor: ActorId, role: &String) -> (r: Result<bool, Error>)
        requires
            self.wf(),
        ensures
            (match r {
                Ok(held) => exists|k: RoleKind|
                    #[trigger] spec_role_name(k) == role@ && self.spec_registered(k)
                        && held == self.spec_has(actor, k),
                Err(e) => e == Error::UnknownRole
                    && !registry_has_name(self.registry@, role@),
            }),
    {
        match self.registry_index_by_name(role) {
            Some(i) => {
                let kind = self.registry[i].kind;
                proof {
                    assert(self.registry@[i as int].name@ == spec_role_name(kind));
                    assert(registry_has_kind(self.registry@, kind));
                }
                Ok(self.holds_role(actor, kind))
            },
            None => Err(Error::UnknownRole),
        }
    }

    /// As `has_role_by_name`; the entry point named as the exposed service
    /// method, with the failure returned rather than escalated.
    pub fn has_role(&self, actor: ActorId, role: &String) -> (r: Result<bool, Error>)
        requires
            self.wf(),
        ensures
            (match r {
                Ok(held) => exists|k: RoleKind|
                    #[trigger] spec_role_name(k) == role@ && self.spec_registered(k)
                        && held == self.spec_has(actor, k),
                Err(e) => e == Error::UnknownRole
                    && !registry_has_name(self.registry@, role@),
            }),
    {
        self.has_role_by_name(actor, role)
    }

    /// The registered role names, in registration order.
    pub fn roles(&self) -> (r: Vec<String>)
        ensures
            r@.len() == self.registry@.len(),
            forall|i: int| 0 <= i < r@.len() ==> (#[trigger] r@[i])@ == self.registry@[i].name@,
    {
        let n = self.registry.len();
        let mut out: Vec<String> = Vec::new();
        let mut i: usize = 0;
        while i < n
            invariant
                n == self.registry@.len(),
                i <= n,
                out@.len() == i,
                forall|j: int| 0 <= j < i ==> (#[trigger] out@[j])@ == self.registry@[j].name@,
            decreases n - i,
        {
            out.push(self.registry[i].name.clone());
            i = i + 1;
        }
        out
    }
}

/// Granting a role and then revoking it leaves the role unheld, and — the
/// role being registered — neither call errors: the successful outcomes
/// promised by `grant_role` and `remove_role` compose into a state where
/// `spec_has(actor, kind)` is false.
pub proof fn lemma_grant_remove_round_trip(
    s0: Service,
    s1: Service,
    s2: Service,
    actor: ActorId,
    kind: RoleKind,
)
    requires
        s0.wf(),
        s0.spec_registered(kind),
        // After grant_role(actor, kind) returned Ok:
        forall|a: ActorId, k: RoleKind| #[trigger] s1.spec_has(a, k)
            == (s0.spec_has(a, k) || (a == actor && k == kind)),
        s1.registry == s0.registry,
        // After remove_role(actor, kind) returned Ok:
        forall|a: ActorId, k: RoleKind| #[trigger] s2.spec_has(a, k)
            == (s1.spec_has(a, k) && !(a == actor && k == kind)),
    ensures
        !s2.spec_has(actor, kind),
        s1.spec_registered(kind),
        forall|a: ActorId, k: RoleKind| !(a == actor && k == kind)
            ==> #[trigger] s2.spec_has(a, k) == s0.spec_has(a, k),
{
}

} // verus!
