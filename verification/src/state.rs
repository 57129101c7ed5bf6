//! The mathematical model of the ledger: its five partitions as a number and
//! four maps, what each query reads from them, and what each operation makes
//! of them.

use vstd::prelude::*;
use crate::storage::has_room;
use crate::sums::lemma_sum_over_agree;
use crate::sums::lemma_sum_over_empty;
use crate::sums::lemma_sum_over_insert;
use crate::sums::sum_over;

verus! {

/// An account in the model: the bytes of its identity.
pub type Account = Seq<u8>;

/// The state of a ledger. A key that a map lacks stands for the default of
/// its partition: no permission, or a balance of zero.
pub struct LedgerState {
    /// Points that the issuer has minted.
    pub owner_points: nat,
    /// For each store, whether it may grant points.
    pub authority: Map<Account, bool>,
    /// For each store, the points it has granted in total.
    pub store_points: Map<Account, nat>,
    /// For each store and user, the points that the store granted to the user.
    pub store_user_points: Map<(Account, Account), nat>,
    /// For each user, the points they hold.
    pub user_points: Map<Account, nat>,
}

/// One operation that changes a ledger, with its arguments.
pub enum Operation {
    /// The issuer mints `value` more points.
    Issue { value: nat },
    /// The permission of `store` is switched.
    SwitchAuthority { store: Account },
    /// `store` grants `value` points to `user`.
    Grant { store: Account, user: Account, value: nat },
    /// `user` spends `value` points.
    Spend { user: Account, value: nat },
}

/// What the entry `pair` of `grants` counts towards the total of `store`: its
/// amount where the pair's store is `store`, nothing otherwise.
pub open spec fn share_of(grants: Map<(Account, Account), nat>, store: Account) -> spec_fn(
    (Account, Account),
) -> int {
    |pair: (Account, Account)|
        if pair.0 == store {
            grants[pair] as int
        } else {
            0int
        }
}

/// The sum, over every user, of what `store` granted to that user.
pub open spec fn grant_sum(grants: Map<(Account, Account), nat>, store: Account) -> int {
    sum_over(grants.dom(), share_of(grants, store))
}

impl LedgerState {
    /// The ledger right after construction: the supply is `supply` and every
    /// other partition is empty.
    pub open spec fn initial(supply: nat) -> LedgerState {
        LedgerState {
            owner_points: supply,
            authority: Map::empty(),
            store_points: Map::empty(),
            store_user_points: Map::empty(),
            user_points: Map::empty(),
        }
    }

    /// Whether `store` may grant points.
    pub open spec fn is_authority(self, store: Account) -> bool {
        self.authority.dom().contains(store) && self.authority[store]
    }

    /// The points that `store` has granted in total.
    pub open spec fn store_total(self, store: Account) -> nat {
        if self.store_points.dom().contains(store) {
            self.store_points[store]
        } else {
            0
        }
    }

    /// The points that `store` has granted to `user`.
    pub open spec fn granted(self, store: Account, user: Account) -> nat {
        if self.store_user_points.dom().contains((store, user)) {
            self.store_user_points[(store, user)]
        } else {
            0
        }
    }

    /// The points that `user` holds.
    pub open spec fn balance_of(self, user: Account) -> nat {
        if self.user_points.dom().contains(user) {
            self.user_points[user]
        } else {
            0
        }
    }

    /// The ledger after `value` more points were minted.
    pub open spec fn issue(self, value: nat) -> LedgerState {
        LedgerState { owner_points: self.owner_points + value, ..self }
    }

    /// The ledger after the permission of `store` was switched to the
    /// opposite of what it was.
    pub open spec fn toggle_authority(self, store: Account) -> LedgerState {
        LedgerState { authority: self.authority.insert(store, !self.is_authority(store)), ..self }
    }

    /// The ledger after `value` was added to the total of `store` and to what
    /// `store` granted to `user`.
    pub open spec fn credit_store(self, store: Account, user: Account, value: nat) -> LedgerState {
        LedgerState {
            store_points: self.store_points.insert(store, self.store_total(store) + value),
            store_user_points: self.store_user_points.insert(
                (store, user),
                self.granted(store, user) + value,
            ),
            ..self
        }
    }

    /// The ledger after the balance of `user` was set to `value`.
    pub open spec fn set_balance(self, user: Account, value: nat) -> LedgerState {
        LedgerState { user_points: self.user_points.insert(user, value), ..self }
    }

    /// The ledger after `store` granted `value` points to `user`: the store's
    /// total, the store's grants to the user and the user's balance each grow
    /// by `value`.
    pub open spec fn grant(self, store: Account, user: Account, value: nat) -> LedgerState {
        self.credit_store(store, user, value).set_balance(user, self.balance_of(user) + value)
    }

    /// The ledger after `user` spent `value` points, which they must hold.
    /// Only the user's balance changes.
    pub open spec fn redeem(self, user: Account, value: nat) -> LedgerState
        recommends
            value <= self.balance_of(user),
    {
        self.set_balance(user, (self.balance_of(user) - value) as nat)
    }

    /// The ledger after `operation` was asked of it. A grant by a store
    /// without permission and a spending beyond the balance of the user are
    /// turned down: they leave the ledger as it is.
    pub open spec fn step(self, operation: Operation) -> LedgerState {
        match operation {
            Operation::Issue { value } => self.issue(value),
            Operation::SwitchAuthority { store } => self.toggle_authority(store),
            Operation::Grant { store, user, value } => if self.is_authority(store) {
                self.grant(store, user, value)
            } else {
                self
            },
            Operation::Spend { user, value } => if value <= self.balance_of(user) {
                self.redeem(user, value)
            } else {
                self
            },
        }
    }

    /// The ledger after each of `operations` was asked of it, in order.
    pub open spec fn run(self, operations: Seq<Operation>) -> LedgerState
        decreases operations.len(),
    {
        if operations.len() == 0 {
            self
        } else {
            self.run(operations.drop_last()).step(operations.last())
        }
    }

    /// Whether `value` more points can be minted without the supply leaving
    /// the range of a balance.
    pub open spec fn issue_fits(self, value: nat) -> bool {
        self.owner_points + value <= u128::MAX
    }

    /// Whether the permission of `store` can be recorded.
    pub open spec fn toggle_fits(self, store: Account) -> bool {
        has_room(self.authority, store)
    }

    /// Whether `value` can be added to the total of `store` and to its grants
    /// to `user`: neither counter leaves the range of a balance, and both
    /// entries can be recorded.
    pub open spec fn credit_fits(self, store: Account, user: Account, value: nat) -> bool {
        &&& self.store_total(store) + value <= u128::MAX
        &&& self.granted(store, user) + value <= u128::MAX
        &&& has_room(self.store_points, store)
        &&& has_room(self.store_user_points, (store, user))
    }

    /// Whether a balance can be recorded for `user`.
    pub open spec fn balance_fits(self, user: Account) -> bool {
        has_room(self.user_points, user)
    }

    /// Whether a grant of `value` from `store` to `user` can be carried out:
    /// none of the three counters leaves the range of a balance, and every
    /// entry can be recorded.
    pub open spec fn grant_fits(self, store: Account, user: Account, value: nat) -> bool {
        &&& self.credit_fits(store, user, value)
        &&& self.balance_of(user) + value <= u128::MAX
        &&& self.balance_fits(user)
    }

    /// The consistency of the store partition: the grants are finitely many,
    /// and the total of every store is the sum of its grants over all users.
    pub open spec fn totals_match_grants(self) -> bool {
        &&& self.store_user_points.dom().finite()
        &&& forall|store: Account| #[trigger]
            self.store_total(store) == grant_sum(self.store_user_points, store)
    }
}

/// With no grant recorded, the grants of every store sum to zero.
pub proof fn lemma_grant_sum_empty(store: Account)
    ensures
        grant_sum(Map::<(Account, Account), nat>::empty(), store) == 0,
{
    let grants = Map::<(Account, Account), nat>::empty();
    assert(grants.dom() =~= Set::<(Account, Account)>::empty());
    lemma_sum_over_empty(share_of(grants, store));
}

/// Recording `amount` for `pair` changes the sum of a store's grants by the
/// difference between `amount` and what the pair held before, where the
/// pair's store is that store, and leaves it unchanged otherwise.
pub proof fn lemma_grant_sum_insert(
    grants: Map<(Account, Account), nat>,
    pair: (Account, Account),
    amount: nat,
    store: Account,
)
    requires
        grants.dom().finite(),
    ensures
        grant_sum(grants.insert(pair, amount), store) == grant_sum(grants, store) + (if pair.0
            == store {
            amount - (if grants.dom().contains(pair) {
                grants[pair]
            } else {
                0
            })
        } else {
            0
        }),
{
    let after = grants.insert(pair, amount);
    let others = grants.dom().remove(pair);
    let before_share = share_of(grants, store);
    let after_share = share_of(after, store);
    assert(after.dom() =~= others.insert(pair));
    lemma_sum_over_agree(others, before_share, after_share);
    lemma_sum_over_insert(others, after_share, pair);
    if grants.dom().contains(pair) {
        assert(grants.dom() =~= others.insert(pair));
        lemma_sum_over_insert(others, before_share, pair);
    } else {
        assert(grants.dom() =~= others);
    }
}

} // verus!
