//! The ledger itself: its state in contract-storage hash maps, and the
//! operations and queries on it.

use vstd::prelude::*;
use crate::account::AccountId;
use crate::account::Balance;
use crate::events::Authority;
use crate::events::Error;
use crate::events::Issuance;
use crate::events::UserPoints;
use crate::laws::lemma_grant_keeps_totals_matched;
use crate::laws::lemma_initial_totals_match;
use crate::laws::lemma_store_partition_decides;
use crate::state::LedgerState;
use crate::state::Operation;
use crate::storage::balance_entries;
use crate::storage::balances_get;
use crate::storage::balances_insert;
use crate::storage::balances_len;
use crate::storage::balances_new;
use crate::storage::flag_entries;
use crate::storage::flags_get;
use crate::storage::flags_insert;
use crate::storage::flags_len;
use crate::storage::flags_new;
use crate::storage::grant_entries;
use crate::storage::grants_get;
use crate::storage::grants_insert;
use crate::storage::grants_len;
use crate::storage::grants_new;
use crate::storage::has_room;
use crate::storage::BalanceEntries;
use crate::storage::BalanceMap;
use crate::storage::FlagEntries;
use crate::storage::FlagMap;
use crate::storage::GrantEntries;
use crate::storage::GrantMap;
use crate::storage::MAX_ENTRIES;

verus! {

/// The stored balances `entries` as numbers of the model.
pub open spec fn amounts<K>(entries: Map<K, u128>) -> Map<K, nat> {
    entries.map_values(|balance: u128| balance as nat)
}

/// The state that a ledger with the supply `owner_points` and the given
/// entries in its four maps stands for.
pub open spec fn ledger_state(
    owner_points: Balance,
    authority: FlagEntries,
    store_points: BalanceEntries,
    store_user_points: GrantEntries,
    user_points: BalanceEntries,
) -> LedgerState {
    LedgerState {
        owner_points: owner_points as nat,
        authority,
        store_points: amounts(store_points),
        store_user_points: amounts(store_user_points),
        user_points: amounts(user_points),
    }
}

/// The stored balances have the keys of the model's map, no balance recorded
/// means no key in either, and a key has room in one as in the other.
proof fn lemma_amounts_keys<K>(entries: Map<K, u128>)
    ensures
        amounts(entries).dom() == entries.dom(),
        forall|key: K| #[trigger] has_room(amounts(entries), key) == has_room(entries, key),
{
    assert(amounts(entries).dom() =~= entries.dom());
}

/// Storing `balance` under `key` records `balance` for `key` in the model.
proof fn lemma_amounts_insert<K>(entries: Map<K, u128>, key: K, balance: u128)
    ensures
        amounts(entries.insert(key, balance)) == amounts(entries).insert(key, balance as nat),
{
    assert(amounts(entries.insert(key, balance)) =~= amounts(entries).insert(key, balance as nat));
}

/// Maps without entries stand for a model without entries.
proof fn lemma_amounts_empty<K>()
    ensures
        amounts(Map::<K, u128>::empty()) == Map::<K, nat>::empty(),
{
    assert(amounts(Map::<K, u128>::empty()) =~= Map::<K, nat>::empty());
}

/// The points ledger of one issuer.
pub struct Point {
    /// Points that the issuer has minted.
    owner_points: Balance,
    /// Permission of each store to grant points.
    authority: FlagMap,
    /// Points that each store has granted.
    store_points: BalanceMap,
    /// Points that each store has granted to each user.
    store_user_points: GrantMap,
    /// Points that each user holds.
    user_points: BalanceMap,
}

impl View for Point {
    type V = LedgerState;

    closed spec fn view(&self) -> LedgerState {
        ledger_state(
            self.owner_points,
            flag_entries(self.authority),
            balance_entries(self.store_points),
            grant_entries(self.store_user_points),
            balance_entries(self.user_points),
        )
    }
}

impl Point {
    /// Makes the ledger of an issuer with `init_value` points minted and
    /// nothing else recorded, and reports the issuance by `caller`.
    pub fn new(caller: AccountId, init_value: Balance) -> (made: (Point, Issuance))
        ensures
            made.0@ == LedgerState::initial(init_value as nat),
            made.0@.owner_points == init_value,
            made.0@.totals_match_grants(),
            made.1 == (Issuance { owner: caller, value: init_value }),
    {
        let initial = Point {
            owner_points: init_value,
            authority: flags_new(),
            store_points: balances_new(),
            store_user_points: grants_new(),
            user_points: balances_new(),
        };
        proof {
            lemma_amounts_empty::<Seq<u8>>();
            lemma_amounts_empty::<(Seq<u8>, Seq<u8>)>();
            lemma_initial_totals_match(init_value as nat);
        }
        (initial, Issuance { owner: caller, value: init_value })
    }

    /// Puts a ledger together from a supply and four storage maps, such as
    /// a contract has pulled from its storage.
    pub fn from_parts(
        owner_points: Balance,
        authority: FlagMap,
        store_points: BalanceMap,
        store_user_points: GrantMap,
        user_points: BalanceMap,
    ) -> (ledger: Point)
        ensures
            ledger@ == ledger_state(
                owner_points,
                flag_entries(authority),
                balance_entries(store_points),
                grant_entries(store_user_points),
                balance_entries(user_points),
            ),
    {
        Point { owner_points, authority, store_points, store_user_points, user_points }
    }

    /// The supply and the four storage maps of the ledger, in the order in
    /// which `from_parts` takes them, for a contract to push to its storage.
    pub fn parts(&self) -> (parts: (Balance, &FlagMap, &BalanceMap, &GrantMap, &BalanceMap))
        ensures
            self@ == ledger_state(
                parts.0,
                flag_entries(*parts.1),
                balance_entries(*parts.2),
                grant_entries(*parts.3),
                balance_entries(*parts.4),
            ),
    {
        (
            self.owner_points,
            &self.authority,
            &self.store_points,
            &self.store_user_points,
            &self.user_points,
        )
    }

    /// Mints `value` more points for the issuer, whoever the caller is, and
    /// reports the issuance by `caller`.
    ///
    /// The supply must stay in the range of a balance.
    pub fn issuance_points(&mut self, caller: AccountId, value: Balance) -> (issued: Result<
        Issuance,
        Error,
    >)
        requires
            old(self)@.issue_fits(value as nat),
        ensures
            final(self)@ == old(self)@.issue(value as nat),
            final(self)@ == old(self)@.step(Operation::Issue { value: value as nat }),
            final(self)@.owner_points == old(self)@.owner_points + value,
            issued == Ok::<Issuance, Error>(Issuance { owner: caller, value }),
            old(self)@.totals_match_grants() ==> final(self)@.totals_match_grants(),
    {
        self.owner_points += value;
        proof {
            lemma_store_partition_decides(old(self)@, self@);
        }
        Ok(Issuance { owner: caller, value })
    }

    /// Switches the permission of `store` to the opposite of what it is, and
    /// reports the permission that `store` holds afterwards.
    ///
    /// The permission of `store` must be recordable.
    pub fn give_authority(&mut self, caller: AccountId, store: AccountId) -> (switched: Result<
        Authority,
        Error,
    >)
        requires
            old(self)@.toggle_fits(store@),
        ensures
            final(self)@ == old(self)@.toggle_authority(store@),
            final(self)@ == old(self)@.step(Operation::SwitchAuthority { store: store@ }),
            final(self)@.is_authority(store@) == !old(self)@.is_authority(store@),
            switched == Ok::<Authority, Error>(
                Authority { owner: caller, store, auth: !old(self)@.is_authority(store@) },
            ),
            old(self)@.totals_match_grants() ==> final(self)@.totals_match_grants(),
    {
        let current_auth = self.is_authority(store);
        let _ = flags_insert(&mut self.authority, store.bytes, !current_auth);
        proof {
            lemma_store_partition_decides(old(self)@, self@);
        }
        Ok(Authority { owner: caller, store, auth: !current_auth })
    }

    /// Grants `value` points from `store` to `user`.
    ///
    /// A store without permission is turned down with `NotAuthority` and the
    /// ledger stays as it is. Otherwise the store's total, its grants to the
    /// user and the user's balance each grow by `value`, all three together,
    /// and the grant is reported. For a store with permission the grant must
    /// fit: no counter may leave the range of a balance.
    pub fn give_user_points(&mut self, store: AccountId, user: AccountId, value: Balance) -> (granted:
        Result<UserPoints, Error>)
        requires
            old(self)@.is_authority(store@) ==> old(self)@.grant_fits(store@, user@, value as nat),
        ensures
            !old(self)@.is_authority(store@) ==> granted == Err::<UserPoints, Error>(
                Error::NotAuthority,
            ) && final(self)@ == old(self)@,
            old(self)@.is_authority(store@) ==> granted == Ok::<UserPoints, Error>(
                UserPoints { store, user, value },
            ) && final(self)@ == old(self)@.grant(store@, user@, value as nat),
            final(self)@ == old(self)@.step(
                Operation::Grant { store: store@, user: user@, value: value as nat },
            ),
            old(self)@.totals_match_grants() ==> final(self)@.totals_match_grants(),
    {
        let auth = self.is_authority(store);
        if !auth {
            return Err(Error::NotAuthority);
        }
        self.add_store_points(store, user, value)?;
        let point = self.user_points_or_zero(&user);
        self.inc_user_points(user, point + value)?;
        proof {
            if old(self)@.totals_match_grants() {
                lemma_grant_keeps_totals_matched(old(self)@, store@, user@, value as nat);
            }
        }
        Ok(UserPoints { store, user, value })
    }

    /// Spends `value` of the points that `user` holds. `store` is where they
    /// are spent: it is reported and plays no other part.
    ///
    /// A user that holds less than `value` is turned down with
    /// `InsufficientBalance` and the ledger stays as it is. Otherwise the
    /// user's balance shrinks by `value`, nothing else changes, and the
    /// spending is reported. The balance of a user that is new to the ledger
    /// must be recordable.
    pub fn use_user_points(&mut self, store: AccountId, user: AccountId, value: Balance) -> (spent:
        Result<UserPoints, Error>)
        requires
            old(self)@.balance_of(user@) >= value ==> old(self)@.balance_fits(user@),
        ensures
            old(self)@.balance_of(user@) < value ==> spent == Err::<UserPoints, Error>(
                Error::InsufficientBalance,
            ) && final(self)@ == old(self)@,
            old(self)@.balance_of(user@) >= value ==> spent == Ok::<UserPoints, Error>(
                UserPoints { store, user, value },
            ) && final(self)@ == old(self)@.redeem(user@, value as nat),
            final(self)@ == old(self)@.step(Operation::Spend { user: user@, value: value as nat }),
            old(self)@.totals_match_grants() ==> final(self)@.totals_match_grants(),
    {
        let point = self.user_points_or_zero(&user);
        if point < value {
            return Err(Error::InsufficientBalance);
        }
        self.inc_user_points(user, point - value)?;
        proof {
            lemma_store_partition_decides(old(self)@, self@);
        }
        Ok(UserPoints { store, user, value })
    }

    /// Whether `issuance_points` can mint `value` more points: whether the
    /// supply stays in the range of a balance.
    pub fn issue_fits(&self, value: Balance) -> (fits: bool)
        ensures
            fits == self@.issue_fits(value as nat),
    {
        value <= u128::MAX - self.owner_points
    }

    /// Whether `give_authority` can record the permission of `store`.
    pub fn toggle_fits(&self, store: AccountId) -> (fits: bool)
        ensures
            fits == self@.toggle_fits(store@),
    {
        match flags_get(&self.authority, &store.bytes) {
            Some(_) => true,
            None => flags_len(&self.authority) < MAX_ENTRIES,
        }
    }

    /// Whether `use_user_points` and `give_user_points` can record a balance
    /// for `user`.
    pub fn balance_fits(&self, user: AccountId) -> (fits: bool)
        ensures
            fits == self@.balance_fits(user@),
    {
        proof {
            lemma_amounts_keys(balance_entries(self.user_points));
        }
        match balances_get(&self.user_points, &user.bytes) {
            Some(_) => true,
            None => balances_len(&self.user_points) < MAX_ENTRIES,
        }
    }

    /// Whether `give_user_points` can carry out a grant of `value` from
    /// `store` to `user`, once `store` has permission: whether the three
    /// counters stay in the range of a balance and every entry can be
    /// recorded.
    pub fn grant_fits(&self, store: AccountId, user: AccountId, value: Balance) -> (fits: bool)
        ensures
            fits == self@.grant_fits(store@, user@, value as nat),
    {
        proof {
            lemma_amounts_keys(balance_entries(self.store_points));
            lemma_amounts_keys(grant_entries(self.store_user_points));
        }
        let total_fits = match balances_get(&self.store_points, &store.bytes) {
            Some(total) => value <= u128::MAX - total,
            None => balances_len(&self.store_points) < MAX_ENTRIES,
        };
        let grant_fits = match grants_get(&self.store_user_points, &store.bytes, &user.bytes) {
            Some(granted) => value <= u128::MAX - granted,
            None => grants_len(&self.store_user_points) < MAX_ENTRIES,
        };
        let balance = self.user_points_or_zero(&user);
        total_fits && grant_fits && value <= u128::MAX - balance && self.balance_fits(user)
    }

    /// The points that the issuer has minted.
    pub fn get_owner_points(&self) -> (points: Balance)
        ensures
            points == self@.owner_points,
    {
        self.owner_points
    }

    /// The points that `store` has granted in total; zero for a store that
    /// never granted.
    pub fn get_store_points(&self, store: AccountId) -> (points: Balance)
        ensures
            points == self@.store_total(store@),
    {
        self.store_points_or_zero(&store)
    }

    /// The points that `store` has granted to `user`; zero where it never
    /// granted any. The ledger stays as it is.
    pub fn get_store_user_points(&mut self, store: AccountId, user: AccountId) -> (points: Balance)
        ensures
            points == old(self)@.granted(store@, user@),
            final(self)@ == old(self)@,
    {
        self.store_user_points_or_zero(&store, &user)
    }

    /// The points that `user` holds; zero for a user that never received any.
    /// The ledger stays as it is.
    pub fn get_user_points(&mut self, user: AccountId) -> (points: Balance)
        ensures
            points == old(self)@.balance_of(user@),
            final(self)@ == old(self)@,
    {
        self.user_points_or_zero(&user)
    }

    /// Whether `store` may grant points; `false` for a store whose
    /// permission was never switched.
    pub fn is_authority(&self, store: AccountId) -> (auth: bool)
        ensures
            auth == self@.is_authority(store@),
    {
        self.authority_or_false(&store)
    }

    fn authority_or_false(&self, store: &AccountId) -> (auth: bool)
        ensures
            auth == self@.is_authority(store@),
    {
        match flags_get(&self.authority, &store.bytes) {
            Some(auth) => auth,
            None => false,
        }
    }

    fn store_points_or_zero(&self, store: &AccountId) -> (points: Balance)
        ensures
            points == self@.store_total(store@),
    {
        proof {
            lemma_amounts_keys(balance_entries(self.store_points));
        }
        match balances_get(&self.store_points, &store.bytes) {
            Some(points) => points,
            None => 0,
        }
    }

    fn store_user_points_or_zero(&self, store: &AccountId, user: &AccountId) -> (points: Balance)
        ensures
            points == self@.granted(store@, user@),
    {
        proof {
            lemma_amounts_keys(grant_entries(self.store_user_points));
        }
        match grants_get(&self.store_user_points, &store.bytes, &user.bytes) {
            Some(points) => points,
            None => 0,
        }
    }

    /// Adds `value` to the total of `store` and to what `store` granted to
    /// `user`.
    fn add_store_points(&mut self, store: AccountId, user: AccountId, value: Balance) -> (done:
        Result<(), Error>)
        requires
            old(self)@.credit_fits(store@, user@, value as nat),
        ensures
            done is Ok,
            final(self)@ == old(self)@.credit_store(store@, user@, value as nat),
    {
        proof {
            lemma_amounts_keys(balance_entries(self.store_points));
            lemma_amounts_keys(grant_entries(self.store_user_points));
        }
        let store_point = self.store_points_or_zero(&store);
        let _ = balances_insert(&mut self.store_points, store.bytes, store_point + value);
        let user_point = self.store_user_points_or_zero(&store, &user);
        let _ = grants_insert(
            &mut self.store_user_points,
            store.bytes,
            user.bytes,
            user_point + value,
        );
        proof {
            lemma_amounts_insert(
                balance_entries(old(self).store_points),
                store@,
                (store_point + value) as u128,
            );
            lemma_amounts_insert(
                grant_entries(old(self).store_user_points),
                (store@, user@),
                (user_point + value) as u128,
            );
        }
        Ok(())
    }

    /// Sets the balance of `user` to `value`.
    fn inc_user_points(&mut self, user: AccountId, value: Balance) -> (done: Result<(), Error>)
        requires
            old(self)@.balance_fits(user@),
        ensures
            done is Ok,
            final(self)@ == old(self)@.set_balance(user@, value as nat),
    {
        proof {
            lemma_amounts_keys(balance_entries(self.user_points));
            lemma_amounts_insert(balance_entries(self.user_points), user@, value);
        }
        let _ = balances_insert(&mut self.user_points, user.bytes, value);
        Ok(())
    }

    fn user_points_or_zero(&self, user: &AccountId) -> (points: Balance)
        ensures
            points == self@.balance_of(user@),
    {
        proof {
            lemma_amounts_keys(balance_entries(self.user_points));
        }
        match balances_get(&self.user_points, &user.bytes) {
            Some(points) => points,
            None => 0,
        }
    }
}

} // verus!
