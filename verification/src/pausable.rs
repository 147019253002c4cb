//! The pause circuit breaker: a two-state switch gating all value-mutating
//! ledger operations, administered by the dedicated pause-admin role.

use vstd::prelude::*;

use crate::actor::ActorId;
use crate::roles;
use crate::roles::RoleKind;

verus! {

/// The error of the pause gate.
#[derive(Clone, Copy, Debug, PartialEq, Eq, Structural)]
pub enum Error {
    Paused,
}

/// An event describing a successful pause-state transition.
#[derive(Clone, Copy, Debug, PartialEq, Eq, Structural)]
pub enum Event {
    Paused,
    Unpaused,
}

/// The circuit-breaker state; `Active` at ledger creation.
#[derive(Clone, Copy, Debug, PartialEq, Eq, Structural)]
pub enum State {
    Active,
    Paused,
}

impl State {
    /// Whether the switch is engaged.
    pub fn paused(&self) -> (r: bool)
        ensures
            r == (*self == State::Paused),
    {
        matches!(self, State::Paused)
    }

    /// Flips the switch to the other state.
    pub fn switch(&mut self)
        ensures
            *final(self) == if *old(self) == State::Paused {
                State::Active
            } else {
                State::Paused
            },
    {
        if self.paused() {
            *self = State::Active
        } else {
            *self = State::Paused
        }
    }
}

/// Engages the switch; reports false when already engaged.
pub fn pause(state: &mut State) -> (mutated: bool)
    ensures
        *final(state) == State::Paused,
        mutated == (*old(state) != State::Paused),
{
    if state.paused() {
        return false;
    }
    state.switch();
    true
}

/// Releases the switch; reports false when already released.
pub fn unpause(state: &mut State) -> (mutated: bool)
    ensures
        *final(state) == State::Active,
        mutated == (*old(state) != State::Active),
{
    if !state.paused() {
        return false;
    }
    state.switch();
    true
}

/// The pause service: the switch itself. Authorization consults the
/// access-control service, handed in by the orchestration that owns both.
pub struct Service {
    pub state: State,
}

impl Service {
    /// Whether the breaker is engaged.
    pub open spec fn spec_paused(self) -> bool {
        self.state == State::Paused
    }

    /// Initializes the breaker to `Active`, registers the pause-admin role and
    /// grants it to `admin`.
    pub fn seed(roles_service: &mut roles::Service, admin: ActorId) -> (r: Service)
        requires
            old(roles_service).wf(),
        ensures
            final(roles_service).wf(),
            !r.spec_paused(),
            forall|k: RoleKind| #[trigger] final(roles_service).spec_registered(k)
                == (old(roles_service).spec_registered(k) || k == RoleKind::PauseAdmin),
            forall|a: ActorId, k: RoleKind| #[trigger] final(roles_service).spec_has(a, k)
                == (old(roles_service).spec_has(a, k)
                    || (a == admin && k == RoleKind::PauseAdmin)),
    {
        let registered = roles_service.register_role(RoleKind::PauseAdmin);
        proof {
            assert(registered.is_ok());
        }
        let ghost mid = *roles_service;
        let granted = roles_service.grant_role(admin, RoleKind::PauseAdmin);
        proof {
            assert(granted.is_ok());
            assert forall|a: ActorId, k: RoleKind| #[trigger] mid.spec_has(a, k)
                == old(roles_service).spec_has(a, k) by {
                assert(mid.assignments@ == old(roles_service).assignments@);
            }
            assert forall|k: RoleKind| #[trigger] roles_service.spec_registered(k)
                == mid.spec_registered(k) by {
                assert(roles_service.registry@ == mid.registry@);
            }
        }
        Service { state: State::Active }
    }

    /// A fresh breaker in the `Active` state.
    pub fn new() -> (r: Service)
        ensures
            !r.spec_paused(),
    {
        Service { state: State::Active }
    }

    /// Whether the breaker is engaged; readable by anyone.
    pub fn is_paused(&self) -> (r: bool)
        ensures
            r == self.spec_paused(),
    {
        self.state.paused()
    }

    /// Fails with `Paused` exactly when the breaker is engaged; every
    /// value-mutating ledger operation calls this first.
    pub fn ensure_unpaused(&self) -> (r: Result<(), Error>)
        ensures
            (match r {
                Ok(()) => !self.spec_paused(),
                Err(e) => self.spec_paused() && e == Error::Paused,
            }),
    {
        if self.is_paused() {
            Err(Error::Paused)
        } else {
            Ok(())
        }
    }

    /// Engages the breaker when `caller` holds the pause-admin role; an
    /// unauthorized attempt fails without mutating anything.
    pub fn pause(&mut self, roles_service: &roles::Service, caller: ActorId) -> (r: Result<
        bool,
        roles::Error,
    >)
        requires
            roles_service.wf(),
        ensures
            (match r {
                Ok(mutated) => roles_service.spec_registered(RoleKind::PauseAdmin)
                    && roles_service.spec_has(caller, RoleKind::PauseAdmin)
                    && final(self).spec_paused()
                    && mutated == !old(self).spec_paused(),
                Err(e) => *final(self) == *old(self)
                    && !(roles_service.spec_registered(RoleKind::PauseAdmin)
                        && roles_service.spec_has(caller, RoleKind::PauseAdmin))
                    && (e == roles::Error::BadOrigin || e == roles::Error::UnknownRole),
            }),
    {
        match roles_service.ensure_has_role(caller, RoleKind::PauseAdmin) {
            Ok(()) => {},
            Err(e) => {
                return Err(e);
            },
        }
        Ok(pause(&mut self.state))
    }

    /// Releases the breaker when `caller` holds the pause-admin role; an
    /// unauthorized attempt fails without mutating anything.
    pub fn unpause(&mut self, roles_service: &roles::Service, caller: ActorId) -> (r: Result<
        bool,
        roles::Error,
    >)
        requires
            roles_service.wf(),
        ensures
            (match r {
                Ok(mutated) => roles_service.spec_registered(RoleKind::PauseAdmin)
                    && roles_service.spec_has(caller, RoleKind::PauseAdmin)
                    && !final(self).spec_paused()
                    && mutated == old(self).spec_paused(),
                Err(e) => *final(self) == *old(self)
                    && !(roles_service.spec_registered(RoleKind::PauseAdmin)
                        && roles_service.spec_has(caller, RoleKind::PauseAdmin))
                    && (e == roles::Error::BadOrigin || e == roles::Error::UnknownRole),
            }),
    {
        match roles_service.ensure_has_role(caller, RoleKind::PauseAdmin) {
            Ok(()) => {},
            Err(e) => {
                return Err(e);
            },
        }
        Ok(unpause(&mut self.state))
    }

    /// Reassigns the pause-admin role from `caller` to `actor` atomically,
    /// refusing (false, not an error) when `actor` is the current holder.
    pub fn delegate_admin(
        &self,
        roles_service: &mut roles::Service,
        caller: ActorId,
        actor: ActorId,
    ) -> (r: Result<bool, roles::Error>)
        requires
            old(roles_service).wf(),
        ensures
            final(roles_service).wf(),
            (match r {
                Ok(true) => caller != actor
                    && old(roles_service).spec_has(caller, RoleKind::PauseAdmin)
                    && (forall|a: ActorId, k: RoleKind|
                        #[trigger] final(roles_service).spec_has(a, k)
                            == ((old(roles_service).spec_has(a, k)
                                || (a == actor && k == RoleKind::PauseAdmin))
                                && !(a == caller && k == RoleKind::PauseAdmin))),
                Ok(false) => caller == actor
                    && old(roles_service).spec_has(caller, RoleKind::PauseAdmin)
                    && final(roles_service).assignments == old(roles_service).assignments,
                Err(e) => final(roles_service).assignments == old(roles_service).assignments
                    && !(old(roles_service).spec_registered(RoleKind::PauseAdmin)
                        && old(roles_service).spec_has(caller, RoleKind::PauseAdmin))
                    && (e == roles::Error::BadOrigin || e == roles::Error::UnknownRole),
            }),
            final(roles_service).registry == old(roles_service).registry,
    {
        match roles_service.ensure_has_role(caller, RoleKind::PauseAdmin) {
            Ok(()) => {},
            Err(e) => {
                return Err(e);
            },
        }
        if actor == caller {
            return Ok(false);
        }
        let granted = roles_service.grant_role(actor, RoleKind::PauseAdmin);
        proof {
            assert(granted.is_ok());
        }
        let removed = roles_service.remove_role(caller, RoleKind::PauseAdmin);
        proof {
            assert(removed.is_ok());
        }
        Ok(true)
    }
}

} // verus!
