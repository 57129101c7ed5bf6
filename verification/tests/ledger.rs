use point_ledger::AccountId;
use point_ledger::Authority;
use point_ledger::Error;
use point_ledger::Issuance;
use point_ledger::Point;
use point_ledger::UserPoints;

fn issuer() -> AccountId {
    AccountId::from([0x1; 32])
}

/// test the new.
#[test]
fn new_works() {
    let (point, _) = Point::new(issuer(), 100);
    assert_eq!(point.get_owner_points(), 100);
}

/// test the issuance_points.
#[test]
fn issuance_points_works() {
    let (mut point, _) = Point::new(issuer(), 100);
    assert_eq!(point.get_owner_points(), 100);
    // call issuance_points.
    assert_eq!(point.issuance_points(issuer(), 50).map(|_| ()), Ok(()));
    assert_eq!(point.get_owner_points(), 150);
}

/// test the give_authority.
#[test]
fn give_authority_works() {
    let (mut point, _) = Point::new(issuer(), 100);
    assert_eq!(point.is_authority(AccountId::from([0x0; 32])), false);
    // call give_authority.
    assert_eq!(
        point.give_authority(issuer(), AccountId::from([0x0; 32])).map(|_| ()),
        Ok(())
    );
    assert_eq!(point.is_authority(AccountId::from([0x0; 32])), true);
}

/// test the give_user_points.
#[test]
fn give_user_points_works() {
    let (mut point, _) = Point::new(issuer(), 100);
    assert_eq!(point.get_store_points(AccountId::from([0x1; 32])), 0);
    assert_eq!(
        point.get_store_user_points(AccountId::from([0x1; 32]), AccountId::from([0x0; 32])),
        0
    );
    assert_eq!(point.get_user_points(AccountId::from([0x0; 32])), 0);
    // call give_user_points(error).
    assert_eq!(
        point
            .give_user_points(AccountId::from([0x1; 32]), AccountId::from([0x0; 32]), 80)
            .map(|_| ()),
        Err(Error::NotAuthority)
    );
    // call give_authority.
    assert_eq!(
        point.give_authority(issuer(), AccountId::from([0x1; 32])).map(|_| ()),
        Ok(())
    );
    // call give_user_points.
    assert_eq!(
        point
            .give_user_points(AccountId::from([0x1; 32]), AccountId::from([0x0; 32]), 80)
            .map(|_| ()),
        Ok(())
    );
    assert_eq!(point.get_store_points(AccountId::from([0x1; 32])), 80);
    assert_eq!(
        point.get_store_user_points(AccountId::from([0x1; 32]), AccountId::from([0x0; 32])),
        80
    );
    assert_eq!(point.get_user_points(AccountId::from([0x0; 32])), 80);
}

/// test the use_user_points.
#[test]
fn use_user_points_works() {
    let (mut point, _) = Point::new(issuer(), 100);
    assert_eq!(point.get_user_points(AccountId::from([0x0; 32])), 0);
    // call give_user_points.
    assert_eq!(
        point.give_authority(issuer(), AccountId::from([0x1; 32])).map(|_| ()),
        Ok(())
    );
    assert_eq!(
        point
            .give_user_points(AccountId::from([0x1; 32]), AccountId::from([0x0; 32]), 80)
            .map(|_| ()),
        Ok(())
    );
    assert_eq!(point.get_user_points(AccountId::from([0x0; 32])), 80);
    // call use_user_points.
    assert_eq!(
        point
            .use_user_points(AccountId::from([0x1; 32]), AccountId::from([0x0; 32]), 50)
            .map(|_| ()),
        Ok(())
    );
    assert_eq!(point.get_user_points(AccountId::from([0x0; 32])), 30);
    // call use_user_points(error).
    assert_eq!(
        point
            .use_user_points(AccountId::from([0x1; 32]), AccountId::from([0x0; 32]), 100)
            .map(|_| ()),
        Err(Error::InsufficientBalance)
    );
}

#[test]
fn account_id_keeps_its_bytes() {
    let mut bytes = [0u8; 32];
    bytes[0] = 7;
    bytes[31] = 9;
    let id = AccountId::from(bytes);
    assert_eq!(id.bytes, bytes);
    assert_eq!(id, AccountId { bytes });
    assert_ne!(id, AccountId::from([0u8; 32]));
}

#[test]
fn construction_reports_the_issuance_and_starts_empty() {
    let store = AccountId::from([0x2; 32]);
    let user = AccountId::from([0x3; 32]);
    let (mut point, issued) = Point::new(issuer(), 100);
    assert_eq!(issued, Issuance { owner: issuer(), value: 100 });
    assert_eq!(point.get_owner_points(), 100);
    assert_eq!(point.is_authority(store), false);
    assert_eq!(point.is_authority(issuer()), false);
    assert_eq!(point.get_store_points(store), 0);
    assert_eq!(point.get_store_user_points(store, user), 0);
    assert_eq!(point.get_user_points(user), 0);
}

#[test]
fn construction_with_no_supply() {
    let (point, issued) = Point::new(issuer(), 0);
    assert_eq!(issued.value, 0);
    assert_eq!(point.get_owner_points(), 0);
}

#[test]
fn issuance_adds_exactly_and_reports_the_caller() {
    let stranger = AccountId::from([0x7; 32]);
    let (mut point, _) = Point::new(issuer(), 100);
    assert_eq!(
        point.issuance_points(stranger, 50),
        Ok(Issuance { owner: stranger, value: 50 })
    );
    assert_eq!(point.get_owner_points(), 150);
    assert_eq!(point.issuance_points(issuer(), 0), Ok(Issuance { owner: issuer(), value: 0 }));
    assert_eq!(point.get_owner_points(), 150);
    assert_eq!(point.issuance_points(issuer(), 1), Ok(Issuance { owner: issuer(), value: 1 }));
    assert_eq!(point.get_owner_points(), 151);
}

#[test]
fn issuance_reaches_the_largest_balance() {
    let (mut point, _) = Point::new(issuer(), u128::MAX - 1);
    assert_eq!(point.issuance_points(issuer(), 1).map(|_| ()), Ok(()));
    assert_eq!(point.get_owner_points(), u128::MAX);
}

#[test]
fn issuance_leaves_the_other_partitions() {
    let store = AccountId::from([0x2; 32]);
    let user = AccountId::from([0x3; 32]);
    let (mut point, _) = Point::new(issuer(), 10);
    assert!(point.give_authority(issuer(), store).is_ok());
    assert!(point.give_user_points(store, user, 4).is_ok());
    assert!(point.issuance_points(issuer(), 5).is_ok());
    assert_eq!(point.get_owner_points(), 15);
    assert_eq!(point.is_authority(store), true);
    assert_eq!(point.get_store_points(store), 4);
    assert_eq!(point.get_store_user_points(store, user), 4);
    assert_eq!(point.get_user_points(user), 4);
}

#[test]
fn authority_toggles_and_reports_the_new_flag() {
    let store = AccountId::from([0x2; 32]);
    let (mut point, _) = Point::new(issuer(), 100);
    assert_eq!(
        point.give_authority(issuer(), store),
        Ok(Authority { owner: issuer(), store, auth: true })
    );
    assert_eq!(point.is_authority(store), true);
    assert_eq!(
        point.give_authority(issuer(), store),
        Ok(Authority { owner: issuer(), store, auth: false })
    );
    assert_eq!(point.is_authority(store), false);
    assert_eq!(
        point.give_authority(issuer(), store),
        Ok(Authority { owner: issuer(), store, auth: true })
    );
    assert_eq!(point.is_authority(store), true);
}

#[test]
fn authority_of_each_store_is_its_own() {
    let first = AccountId::from([0x2; 32]);
    let mut bytes = [0x2; 32];
    bytes[31] = 0x3;
    let second = AccountId::from(bytes);
    let (mut point, _) = Point::new(issuer(), 100);
    assert!(point.give_authority(issuer(), first).is_ok());
    assert_eq!(point.is_authority(first), true);
    assert_eq!(point.is_authority(second), false);
    assert!(point.give_authority(issuer(), second).is_ok());
    assert!(point.give_authority(issuer(), first).is_ok());
    assert_eq!(point.is_authority(first), false);
    assert_eq!(point.is_authority(second), true);
}

#[test]
fn grant_without_authority_changes_nothing() {
    let store = AccountId::from([0x2; 32]);
    let other = AccountId::from([0x4; 32]);
    let user = AccountId::from([0x3; 32]);
    let (mut point, _) = Point::new(issuer(), 100);
    assert!(point.give_authority(issuer(), other).is_ok());
    assert!(point.give_user_points(other, user, 7).is_ok());
    assert_eq!(point.give_user_points(store, user, 80), Err(Error::NotAuthority));
    assert_eq!(point.get_owner_points(), 100);
    assert_eq!(point.get_store_points(store), 0);
    assert_eq!(point.get_store_user_points(store, user), 0);
    assert_eq!(point.get_store_points(other), 7);
    assert_eq!(point.get_store_user_points(other, user), 7);
    assert_eq!(point.get_user_points(user), 7);
    assert_eq!(point.is_authority(store), false);
}

#[test]
fn grant_after_authority_was_withdrawn_is_refused() {
    let store = AccountId::from([0x2; 32]);
    let user = AccountId::from([0x3; 32]);
    let (mut point, _) = Point::new(issuer(), 100);
    assert!(point.give_authority(issuer(), store).is_ok());
    assert!(point.give_user_points(store, user, 5).is_ok());
    assert!(point.give_authority(issuer(), store).is_ok());
    assert_eq!(point.give_user_points(store, user, 5), Err(Error::NotAuthority));
    assert_eq!(point.get_store_points(store), 5);
    assert_eq!(point.get_store_user_points(store, user), 5);
    assert_eq!(point.get_user_points(user), 5);
}

#[test]
fn grant_reports_store_user_and_value() {
    let store = AccountId::from([0x2; 32]);
    let user = AccountId::from([0x3; 32]);
    let (mut point, _) = Point::new(issuer(), 100);
    assert!(point.give_authority(issuer(), store).is_ok());
    assert_eq!(
        point.give_user_points(store, user, 80),
        Ok(UserPoints { store, user, value: 80 })
    );
    assert_eq!(point.give_user_points(store, user, 0), Ok(UserPoints { store, user, value: 0 }));
    assert_eq!(point.get_store_points(store), 80);
    assert_eq!(point.get_owner_points(), 100);
}

#[test]
fn store_total_is_the_sum_of_its_grants() {
    let first = AccountId::from([0x2; 32]);
    let second = AccountId::from([0x4; 32]);
    let ann = AccountId::from([0x10; 32]);
    let bob = AccountId::from([0x11; 32]);
    let cat = AccountId::from([0x12; 32]);
    let (mut point, _) = Point::new(issuer(), 1000);
    assert!(point.give_authority(issuer(), first).is_ok());
    assert!(point.give_authority(issuer(), second).is_ok());
    assert!(point.give_user_points(first, ann, 10).is_ok());
    assert!(point.give_user_points(first, bob, 20).is_ok());
    assert!(point.give_user_points(second, ann, 5).is_ok());
    assert!(point.give_user_points(first, ann, 3).is_ok());
    assert!(point.give_user_points(second, cat, 100).is_ok());
    assert!(point.use_user_points(first, ann, 4).is_ok());
    assert_eq!(point.get_store_user_points(first, ann), 13);
    assert_eq!(point.get_store_user_points(first, bob), 20);
    assert_eq!(point.get_store_user_points(first, cat), 0);
    assert_eq!(point.get_store_points(first), 33);
    assert_eq!(point.get_store_user_points(second, ann), 5);
    assert_eq!(point.get_store_user_points(second, bob), 0);
    assert_eq!(point.get_store_user_points(second, cat), 100);
    assert_eq!(point.get_store_points(second), 105);
    assert_eq!(point.get_user_points(ann), 14);
    assert_eq!(point.get_user_points(bob), 20);
    assert_eq!(point.get_user_points(cat), 100);
}

#[test]
fn an_account_can_be_store_and_user_at_once() {
    let both = AccountId::from([0x2; 32]);
    let (mut point, _) = Point::new(issuer(), 100);
    assert!(point.give_authority(issuer(), both).is_ok());
    assert!(point.give_user_points(both, both, 9).is_ok());
    assert_eq!(point.get_store_points(both), 9);
    assert_eq!(point.get_store_user_points(both, both), 9);
    assert_eq!(point.get_user_points(both), 9);
    assert!(point.use_user_points(both, both, 4).is_ok());
    assert_eq!(point.get_store_points(both), 9);
    assert_eq!(point.get_user_points(both), 5);
}

#[test]
fn spending_debits_the_user_only() {
    let store = AccountId::from([0x2; 32]);
    let elsewhere = AccountId::from([0x5; 32]);
    let user = AccountId::from([0x3; 32]);
    let (mut point, _) = Point::new(issuer(), 100);
    assert!(point.give_authority(issuer(), store).is_ok());
    assert!(point.give_user_points(store, user, 80).is_ok());
    assert_eq!(
        point.use_user_points(elsewhere, user, 50),
        Ok(UserPoints { store: elsewhere, user, value: 50 })
    );
    assert_eq!(point.get_user_points(user), 30);
    assert_eq!(point.get_store_points(store), 80);
    assert_eq!(point.get_store_user_points(store, user), 80);
    assert_eq!(point.get_store_points(elsewhere), 0);
    assert_eq!(point.get_store_user_points(elsewhere, user), 0);
    assert_eq!(point.get_owner_points(), 100);
    assert_eq!(point.is_authority(elsewhere), false);
}

#[test]
fn spending_the_whole_balance_leaves_zero() {
    let store = AccountId::from([0x2; 32]);
    let user = AccountId::from([0x3; 32]);
    let (mut point, _) = Point::new(issuer(), 100);
    assert!(point.give_authority(issuer(), store).is_ok());
    assert!(point.give_user_points(store, user, 80).is_ok());
    assert_eq!(point.use_user_points(store, user, 80), Ok(UserPoints { store, user, value: 80 }));
    assert_eq!(point.get_user_points(user), 0);
    assert_eq!(point.use_user_points(store, user, 1), Err(Error::InsufficientBalance));
    assert_eq!(point.use_user_points(store, user, 0), Ok(UserPoints { store, user, value: 0 }));
    assert_eq!(point.get_user_points(user), 0);
}

#[test]
fn spending_more_than_the_balance_changes_nothing() {
    let store = AccountId::from([0x2; 32]);
    let user = AccountId::from([0x3; 32]);
    let (mut point, _) = Point::new(issuer(), 100);
    assert!(point.give_authority(issuer(), store).is_ok());
    assert!(point.give_user_points(store, user, 30).is_ok());
    assert_eq!(point.use_user_points(store, user, 31), Err(Error::InsufficientBalance));
    assert_eq!(point.get_user_points(user), 30);
    assert_eq!(point.get_store_points(store), 30);
    assert_eq!(point.get_store_user_points(store, user), 30);
}

#[test]
fn spending_by_an_unknown_user() {
    let store = AccountId::from([0x2; 32]);
    let user = AccountId::from([0x3; 32]);
    let (mut point, _) = Point::new(issuer(), 100);
    assert_eq!(point.use_user_points(store, user, 1), Err(Error::InsufficientBalance));
    assert_eq!(point.use_user_points(store, user, 0), Ok(UserPoints { store, user, value: 0 }));
    assert_eq!(point.get_user_points(user), 0);
}

#[test]
fn whole_scenario() {
    let store = AccountId::from([0x2; 32]);
    let user = AccountId::from([0x3; 32]);
    let (mut point, _) = Point::new(issuer(), 100);
    assert!(point.issuance_points(issuer(), 50).is_ok());
    assert_eq!(point.get_owner_points(), 150);
    assert_eq!(point.give_user_points(store, user, 80), Err(Error::NotAuthority));
    assert_eq!(
        point.give_authority(issuer(), store),
        Ok(Authority { owner: issuer(), store, auth: true })
    );
    assert_eq!(point.is_authority(store), true);
    assert!(point.give_user_points(store, user, 80).is_ok());
    assert_eq!(point.get_store_points(store), 80);
    assert_eq!(point.get_store_user_points(store, user), 80);
    assert_eq!(point.get_user_points(user), 80);
    assert!(point.use_user_points(store, user, 50).is_ok());
    assert_eq!(point.get_user_points(user), 30);
    assert_eq!(point.use_user_points(store, user, 100), Err(Error::InsufficientBalance));
    assert_eq!(point.get_user_points(user), 30);
}

#[test]
fn balances_add_up_to_the_largest_balance() {
    let store = AccountId::from([0x2; 32]);
    let user = AccountId::from([0x3; 32]);
    let (mut point, _) = Point::new(issuer(), 0);
    assert!(point.give_authority(issuer(), store).is_ok());
    assert!(point.give_user_points(store, user, u128::MAX - 5).is_ok());
    assert!(point.give_user_points(store, user, 5).is_ok());
    assert_eq!(point.get_store_points(store), u128::MAX);
    assert_eq!(point.get_store_user_points(store, user), u128::MAX);
    assert_eq!(point.get_user_points(user), u128::MAX);
    assert!(point.use_user_points(store, user, u128::MAX).is_ok());
    assert_eq!(point.get_user_points(user), 0);
}

#[test]
fn issuance_fits_up_to_the_largest_balance() {
    let (point, _) = Point::new(issuer(), u128::MAX - 10);
    assert_eq!(point.issue_fits(0), true);
    assert_eq!(point.issue_fits(10), true);
    assert_eq!(point.issue_fits(11), false);
    assert_eq!(point.issue_fits(u128::MAX), false);
    let (empty, _) = Point::new(issuer(), 0);
    assert_eq!(empty.issue_fits(u128::MAX), true);
}

#[test]
fn permissions_and_balances_fit_in_a_small_ledger() {
    let store = AccountId::from([0x2; 32]);
    let user = AccountId::from([0x3; 32]);
    let (mut point, _) = Point::new(issuer(), 100);
    assert_eq!(point.toggle_fits(store), true);
    assert_eq!(point.balance_fits(user), true);
    assert!(point.give_authority(issuer(), store).is_ok());
    assert!(point.give_user_points(store, user, 1).is_ok());
    assert_eq!(point.toggle_fits(store), true);
    assert_eq!(point.toggle_fits(user), true);
    assert_eq!(point.balance_fits(user), true);
    assert_eq!(point.balance_fits(store), true);
}

#[test]
fn grant_fits_while_every_counter_stays_in_range() {
    let store = AccountId::from([0x2; 32]);
    let other = AccountId::from([0x4; 32]);
    let user = AccountId::from([0x3; 32]);
    let friend = AccountId::from([0x5; 32]);
    let (mut point, _) = Point::new(issuer(), 0);
    assert_eq!(point.grant_fits(store, user, u128::MAX), true);
    assert!(point.give_authority(issuer(), store).is_ok());
    assert!(point.give_authority(issuer(), other).is_ok());
    assert!(point.give_user_points(store, user, u128::MAX - 10).is_ok());
    // the store's total, its grants to the user and the user's balance are 10 below the top
    assert_eq!(point.grant_fits(store, user, 10), true);
    assert_eq!(point.grant_fits(store, user, 11), false);
    // the store's total alone is in the way
    assert_eq!(point.grant_fits(store, friend, 10), true);
    assert_eq!(point.grant_fits(store, friend, 11), false);
    // the user's balance alone is in the way
    assert_eq!(point.grant_fits(other, user, 10), true);
    assert_eq!(point.grant_fits(other, user, 11), false);
    // nothing is in the way
    assert_eq!(point.grant_fits(other, friend, u128::MAX), true);
    assert!(point.use_user_points(store, user, 5).is_ok());
    // spending makes room in the balance, not in the store's counters
    assert_eq!(point.grant_fits(other, user, 15), true);
    assert_eq!(point.grant_fits(other, user, 16), false);
    assert_eq!(point.grant_fits(store, user, 11), false);
}
