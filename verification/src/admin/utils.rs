//! Value types of the administrative layer: the error taxonomy of the
//! orchestration entry points, the initialization parameters, and the
//! user-facing role selector.

use vstd::prelude::*;

use crate::actor::ActorId;
use crate::amount::Amount;
use crate::erc20;
use crate::pausable;
use crate::roles;
use crate::roles::RoleKind;

verus! {

/// The full error taxonomy of the orchestration layer. All variants are
/// value-level, recoverable-by-caller conditions; none leaves shared state
/// mutated.
#[derive(Clone, Copy, Debug, PartialEq, Eq, Structural)]
pub enum Error {
    NumericOverflow,
    MaxSupplyReached,
    InsufficientBalance,
    Underflow,
    InsufficientAllowance,
    Paused,
    BadOrigin,
    UnknownRole,
    DuplicateRole,
}

/// Lifts a pure-ledger error into the orchestration taxonomy.
pub fn from_ledger_error(e: erc20::Error) -> (r: Error)
    ensures
        r == spec_from_ledger_error(e),
{
    match e {
        erc20::Error::NumericOverflow => Error::NumericOverflow,
        erc20::Error::InsufficientBalance => Error::InsufficientBalance,
        erc20::Error::InsufficientAllowance => Error::InsufficientAllowance,
    }
}

/// The mapping applied by `from_ledger_error`.
pub open spec fn spec_from_ledger_error(e: erc20::Error) -> Error {
    match e {
        erc20::Error::NumericOverflow => Error::NumericOverflow,
        erc20::Error::InsufficientBalance => Error::InsufficientBalance,
        erc20::Error::InsufficientAllowance => Error::InsufficientAllowance,
    }
}

/// Lifts an access-control error into the orchestration taxonomy.
pub fn from_roles_error(e: roles::Error) -> (r: Error)
    ensures
        r == spec_from_roles_error(e),
{
    match e {
        roles::Error::BadOrigin => Error::BadOrigin,
        roles::Error::UnknownRole => Error::UnknownRole,
        roles::Error::DuplicateRole => Error::DuplicateRole,
    }
}

/// The mapping applied by `from_roles_error`.
pub open spec fn spec_from_roles_error(e: roles::Error) -> Error {
    match e {
        roles::Error::BadOrigin => Error::BadOrigin,
        roles::Error::UnknownRole => Error::UnknownRole,
        roles::Error::DuplicateRole => Error::DuplicateRole,
    }
}

/// Lifts the pause-gate error into the orchestration taxonomy.
pub fn from_pause_error(e: pausable::Error) -> (r: Error)
    ensures
        r == Error::Paused,
{
    match e {
        pausable::Error::Paused => Error::Paused,
    }
}

/// Fatal configuration errors of initialization; they abort construction
/// entirely and are distinct from the recoverable taxonomy above.
#[derive(Clone, Copy, Debug, PartialEq, Eq, Structural)]
pub enum InitError {
    SupplyError,
    DescriptionError,
}

/// Structured external links of the token's metadata.
pub struct ExternalLinks {
    pub image: String,
    pub website: Option<String>,
    pub telegram: Option<String>,
    pub twitter: Option<String>,
    pub discord: Option<String>,
    pub tokenomics: Option<String>,
}

impl ExternalLinks {
    /// An exact copy; written out so the copy is provably equal.
    pub fn duplicate(&self) -> (r: ExternalLinks)
        ensures
            r.image@ == self.image@,
            option_view(r.website) == option_view(self.website),
            option_view(r.telegram) == option_view(self.telegram),
            option_view(r.twitter) == option_view(self.twitter),
            option_view(r.discord) == option_view(self.discord),
            option_view(r.tokenomics) == option_view(self.tokenomics),
    {
        ExternalLinks {
            image: self.image.clone(),
            website: clone_opt(&self.website),
            telegram: clone_opt(&self.telegram),
            twitter: clone_opt(&self.twitter),
            discord: clone_opt(&self.discord),
            tokenomics: clone_opt(&self.tokenomics),
        }
    }
}

/// The character sequence of an optional string, `None` mapped to `None`.
pub open spec fn option_view(o: Option<String>) -> Option<Seq<char>> {
    match o {
        Some(s) => Some(s@),
        None => None,
    }
}

/// A provably exact copy of an optional string.
pub fn clone_opt(o: &Option<String>) -> (r: Option<String>)
    ensures
        option_view(r) == option_view(*o),
{
    match o {
        Some(s) => Some(s.clone()),
        None => None,
    }
}

/// The construction parameters, supplied once by the bootstrap layer.
pub struct Init {
    pub name: String,
    pub symbol: String,
    pub decimals: u8,
    pub description: String,
    pub external_links: ExternalLinks,
    pub initial_supply: Amount,
    pub max_supply: Amount,
    pub admin_id: ActorId,
}

/// The user-facing role selector of the administrative entry points.
#[derive(Clone, Copy, Debug, PartialEq, Eq, Structural)]
pub enum Role {
    Admin,
    Burner,
    Minter,
}

/// The role-kind tag behind each selector.
pub open spec fn spec_role_kind(role: Role) -> RoleKind {
    match role {
        Role::Admin => RoleKind::FungibleAdmin,
        Role::Burner => RoleKind::FungibleBurner,
        Role::Minter => RoleKind::FungibleMinter,
    }
}

/// Maps the user-facing selector to its role-kind tag.
pub fn role_kind(role: Role) -> (r: RoleKind)
    ensures
        r == spec_role_kind(role),
{
    match role {
        Role::Admin => RoleKind::FungibleAdmin,
        Role::Burner => RoleKind::FungibleBurner,
        Role::Minter => RoleKind::FungibleMinter,
    }
}

} // verus!
