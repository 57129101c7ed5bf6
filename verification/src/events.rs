use vstd::prelude::*;
use crate::account::AccountId;
use crate::account::Balance;

verus! {

/// Notification that the issuer's supply was created or enlarged.
#[derive(Clone, Copy, Debug, PartialEq, Eq)]
pub struct Issuance {
    /// The caller that issued the points.
    pub owner: AccountId,
    /// How many points were issued.
    pub value: Balance,
}

/// Notification that a store's permission to grant points was switched.
#[derive(Clone, Copy, Debug, PartialEq, Eq)]
pub struct Authority {
    /// The caller that switched the permission.
    pub owner: AccountId,
    /// The store whose permission was switched.
    pub store: AccountId,
    /// The permission the store holds after the switch.
    pub auth: bool,
}

/// Notification that a store granted points to a user, or that a user spent
/// points at a store.
#[derive(Clone, Copy, Debug, PartialEq, Eq)]
pub struct UserPoints {
    /// The store that granted the points, or at which they were spent.
    pub store: AccountId,
    /// The user that received or spent the points.
    pub user: AccountId,
    /// How many points were granted or spent.
    pub value: Balance,
}

/// Why an operation was turned down. The ledger is unchanged whenever one of
/// these is returned.
#[derive(Clone, Copy, Debug, PartialEq, Eq, Structural)]
pub enum Error {
    /// A grant was asked of a store that holds no permission to grant.
    NotAuthority,
    /// A user tried to spend more points than they hold.
    InsufficientBalance,
}

} // verus!
