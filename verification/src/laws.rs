//! What holds of the ledger across its operations, proved over the model
//! that the contracts of the operations are stated in.

use vstd::prelude::*;
use crate::state::grant_sum;
use crate::state::lemma_grant_sum_empty;
use crate::state::lemma_grant_sum_insert;
use crate::state::Account;
use crate::state::LedgerState;
use crate::state::Operation;

verus! {

/// A ledger constructed with a supply holds exactly that supply, and every
/// other query answers with its default: no store has permission, and every
/// total and balance is zero.
pub proof fn lemma_construction_sets_supply(supply: nat, store: Account, user: Account)
    ensures
        LedgerState::initial(supply).owner_points == supply,
        !LedgerState::initial(supply).is_authority(store),
        LedgerState::initial(supply).store_total(store) == 0,
        LedgerState::initial(supply).granted(store, user) == 0,
        LedgerState::initial(supply).balance_of(user) == 0,
{
}

/// An issuance raises the supply by exactly the issued amount and touches
/// nothing else.
pub proof fn lemma_issuance_adds_exactly(before: LedgerState, value: nat)
    ensures
        before.issue(value).owner_points == before.owner_points + value,
        before.issue(value).authority == before.authority,
        before.issue(value).store_points == before.store_points,
        before.issue(value).store_user_points == before.store_user_points,
        before.issue(value).user_points == before.user_points,
{
}

/// Switching the permission of a store flips it, and switching it twice
/// gives back the permission it had. The permission of every other store,
/// and every counter, stays as it is.
pub proof fn lemma_authority_toggles(before: LedgerState, store: Account, other: Account)
    ensures
        before.toggle_authority(store).is_authority(store) == !before.is_authority(store),
        before.toggle_authority(store).toggle_authority(store).is_authority(store)
            == before.is_authority(store),
        other != store ==> before.toggle_authority(store).is_authority(other)
            == before.is_authority(other),
        other != store ==> before.toggle_authority(store).toggle_authority(store).is_authority(
            other,
        ) == before.is_authority(other),
        before.toggle_authority(store).owner_points == before.owner_points,
        before.toggle_authority(store).store_points == before.store_points,
        before.toggle_authority(store).store_user_points == before.store_user_points,
        before.toggle_authority(store).user_points == before.user_points,
{
}

/// A grant adds its amount to three counters: the total of the store, what
/// the store granted to the user, and the balance of the user. The supply
/// and the permissions stay as they are.
pub proof fn lemma_grant_adds_to_three_counters(
    before: LedgerState,
    store: Account,
    user: Account,
    value: nat,
)
    ensures
        before.grant(store, user, value).store_total(store) == before.store_total(store) + value,
        before.grant(store, user, value).granted(store, user) == before.granted(store, user)
            + value,
        before.grant(store, user, value).balance_of(user) == before.balance_of(user) + value,
        before.grant(store, user, value).owner_points == before.owner_points,
        before.grant(store, user, value).authority == before.authority,
{
}

/// A grant leaves the counters of every other store, pair and user as they
/// are.
pub proof fn lemma_grant_leaves_others(
    before: LedgerState,
    store: Account,
    user: Account,
    value: nat,
    other_store: Account,
    other_user: Account,
)
    ensures
        other_store != store ==> before.grant(store, user, value).store_total(other_store)
            == before.store_total(other_store),
        (other_store, other_user) != (store, user) ==> before.grant(store, user, value).granted(
            other_store,
            other_user,
        ) == before.granted(other_store, other_user),
        other_user != user ==> before.grant(store, user, value).balance_of(other_user)
            == before.balance_of(other_user),
{
}

/// On a ledger where `store` has no permission and has granted nothing, and
/// `user` holds nothing, authorizing the store and then granting `value`
/// leaves the store with permission and all three counters at `value`.
pub proof fn lemma_first_grant_after_authorization(
    before: LedgerState,
    store: Account,
    user: Account,
    value: nat,
)
    requires
        !before.is_authority(store),
        before.store_total(store) == 0,
        before.granted(store, user) == 0,
        before.balance_of(user) == 0,
    ensures
        before.toggle_authority(store).is_authority(store),
        before.toggle_authority(store).grant(store, user, value).is_authority(store),
        before.toggle_authority(store).grant(store, user, value).store_total(store) == value,
        before.toggle_authority(store).grant(store, user, value).granted(store, user) == value,
        before.toggle_authority(store).grant(store, user, value).balance_of(user) == value,
{
}

/// Spending points that the user holds lowers the user's balance by exactly
/// the amount spent. It changes no total of a store, no grant, no other
/// balance, no permission and not the supply.
pub proof fn lemma_redeem_debits_user_only(
    before: LedgerState,
    user: Account,
    value: nat,
    other_user: Account,
)
    requires
        value <= before.balance_of(user),
    ensures
        before.redeem(user, value).balance_of(user) == before.balance_of(user) - value,
        other_user != user ==> before.redeem(user, value).balance_of(other_user)
            == before.balance_of(other_user),
        before.redeem(user, value).store_points == before.store_points,
        before.redeem(user, value).store_user_points == before.store_user_points,
        before.redeem(user, value).authority == before.authority,
        before.redeem(user, value).owner_points == before.owner_points,
{
}

/// A balance never shrinks but by spending: issuing, switching a permission
/// and granting leave every balance at least as large as it was.
pub proof fn lemma_balances_shrink_by_spending_only(
    before: LedgerState,
    store: Account,
    user: Account,
    value: nat,
    holder: Account,
)
    ensures
        before.issue(value).balance_of(holder) == before.balance_of(holder),
        before.toggle_authority(store).balance_of(holder) == before.balance_of(holder),
        before.grant(store, user, value).balance_of(holder) >= before.balance_of(holder),
{
}

/// A ledger is consistent right after construction: no store has granted
/// anything, and no grant is recorded.
pub proof fn lemma_initial_totals_match(supply: nat)
    ensures
        LedgerState::initial(supply).totals_match_grants(),
{
    let made = LedgerState::initial(supply);
    assert forall|store: Account| #[trigger]
        made.store_total(store) == grant_sum(made.store_user_points, store) by {
        lemma_grant_sum_empty(store);
    }
}

/// Consistency is a matter of the store partition alone: a ledger with the
/// totals and grants of a consistent ledger is consistent. So issuing,
/// switching a permission and spending keep a consistent ledger consistent.
pub proof fn lemma_store_partition_decides(before: LedgerState, after: LedgerState)
    requires
        after.store_points == before.store_points,
        after.store_user_points == before.store_user_points,
    ensures
        before.totals_match_grants() ==> after.totals_match_grants(),
{
    if before.totals_match_grants() {
        assert forall|store: Account| #[trigger]
            after.store_total(store) == grant_sum(after.store_user_points, store) by {
            assert(before.store_total(store) == grant_sum(before.store_user_points, store));
        }
    }
}

/// A grant keeps a consistent ledger consistent: the total of the granting
/// store and the sum of its grants grow by the same amount, and no other
/// store is touched.
pub proof fn lemma_grant_keeps_totals_matched(
    before: LedgerState,
    store: Account,
    user: Account,
    value: nat,
)
    requires
        before.totals_match_grants(),
    ensures
        before.grant(store, user, value).totals_match_grants(),
{
    let after = before.grant(store, user, value);
    assert forall|other: Account| #[trigger]
        after.store_total(other) == grant_sum(after.store_user_points, other) by {
        assert(before.store_total(other) == grant_sum(before.store_user_points, other));
        lemma_grant_sum_insert(
            before.store_user_points,
            (store, user),
            before.granted(store, user) + value,
            other,
        );
    }
}

/// Every operation keeps a consistent ledger consistent.
pub proof fn lemma_operations_keep_totals_matched(
    before: LedgerState,
    store: Account,
    user: Account,
    value: nat,
)
    requires
        before.totals_match_grants(),
    ensures
        before.issue(value).totals_match_grants(),
        before.toggle_authority(store).totals_match_grants(),
        before.grant(store, user, value).totals_match_grants(),
        before.redeem(user, value).totals_match_grants(),
{
    lemma_store_partition_decides(before, before.issue(value));
    lemma_store_partition_decides(before, before.toggle_authority(store));
    lemma_store_partition_decides(before, before.redeem(user, value));
    lemma_grant_keeps_totals_matched(before, store, user, value);
}

/// Whatever is asked of a consistent ledger, carried out or turned down, it
/// stays consistent.
pub proof fn lemma_step_keeps_totals_matched(before: LedgerState, operation: Operation)
    requires
        before.totals_match_grants(),
    ensures
        before.step(operation).totals_match_grants(),
{
    match operation {
        Operation::Issue { value } => {
            lemma_store_partition_decides(before, before.issue(value));
        },
        Operation::SwitchAuthority { store } => {
            lemma_store_partition_decides(before, before.toggle_authority(store));
        },
        Operation::Grant { store, user, value } => {
            lemma_grant_keeps_totals_matched(before, store, user, value);
        },
        Operation::Spend { user, value } => {
            lemma_store_partition_decides(before, before.redeem(user, value));
        },
    }
}

/// After any sequence of operations on a newly made ledger, the total of
/// every store is the sum of what it granted to each user.
pub proof fn lemma_totals_match_after_any_operations(
    supply: nat,
    operations: Seq<Operation>,
    store: Account,
)
    ensures
        LedgerState::initial(supply).run(operations).totals_match_grants(),
        LedgerState::initial(supply).run(operations).store_total(store) == grant_sum(
            LedgerState::initial(supply).run(operations).store_user_points,
            store,
        ),
    decreases operations.len(),
{
    if operations.len() == 0 {
        lemma_initial_totals_match(supply);
    } else {
        lemma_totals_match_after_any_operations(supply, operations.drop_last(), store);
        lemma_step_keeps_totals_matched(
            LedgerState::initial(supply).run(operations.drop_last()),
            operations.last(),
        );
    }
}

} // verus!
