//! The contract-storage hash maps that hold the ledger, and what is taken on
//! trust about them.
//!
//! Nothing in this module is proved. Each map type hides one
//! `ink_storage::collections::HashMap`, each `*_entries` function names the
//! key-value pairs that such a map holds, and each wrapper states, over those
//! names, what the hash map's method of the same name does.
//!
//! A map made by `HashMap::new` keeps its entries in memory. A map that a
//! contract pulled from its storage loads an entry on first use, from the
//! storage cell that the hash of the key names, and keeps it in memory from
//! then on. The contracts below say of both what the hash map's
//! documentation says. For a pulled map they rest on what the hash map itself
//! rests on: that its cells were written by this map alone, and that no two
//! keys in use share a cell.

use vstd::prelude::*;
use ink_storage::collections::HashMap;

verus! {

/// Largest number of entries that a storage hash map can hold: it counts its
/// keys in a `u32`.
pub const MAX_ENTRIES: u32 = 0xffff_ffff;

/// What a map from accounts to flags holds.
pub type FlagEntries = Map<Seq<u8>, bool>;

/// What a map from accounts to balances holds.
pub type BalanceEntries = Map<Seq<u8>, u128>;

/// What a map from pairs of accounts to balances holds.
pub type GrantEntries = Map<(Seq<u8>, Seq<u8>), u128>;

/// Whether a storage hash map with the entries `entries` accepts a value for
/// `key`: the key is already present, or there is space for one more key.
pub open spec fn has_room<K, V>(entries: Map<K, V>, key: K) -> bool {
    entries.dom().contains(key) || (entries.dom().finite() && entries.dom().len() < MAX_ENTRIES)
}

/// Whether `entries` are exactly `count` key-value pairs.
pub open spec fn has_count<K, V>(entries: Map<K, V>, count: u32) -> bool {
    entries.dom().finite() && entries.dom().len() == count
}

/// A storage hash map from the thirty-two bytes of an account to a flag.
#[verifier::external_body]
pub struct FlagMap {
    /// The hash map, for a contract to pull from its storage and push back.
    pub cells: HashMap<[u8; 32], bool>,
}

/// A storage hash map from the thirty-two bytes of an account to a balance.
#[verifier::external_body]
pub struct BalanceMap {
    /// The hash map, for a contract to pull from its storage and push back.
    pub cells: HashMap<[u8; 32], u128>,
}

/// A storage hash map from the bytes of two accounts, a store and a user, to
/// a balance.
#[verifier::external_body]
pub struct GrantMap {
    /// The hash map, for a contract to pull from its storage and push back.
    pub cells: HashMap<([u8; 32], [u8; 32]), u128>,
}

/// The entries of `m`: each key for which `HashMap::get` finds a value, with
/// that value.
pub uninterp spec fn flag_entries(m: FlagMap) -> FlagEntries;

/// The entries of `m`: each key for which `HashMap::get` finds a value, with
/// that value.
pub uninterp spec fn balance_entries(m: BalanceMap) -> BalanceEntries;

/// The entries of `m`: each pair of keys for which `HashMap::get` finds a
/// value, with that value.
pub uninterp spec fn grant_entries(m: GrantMap) -> GrantEntries;

/// `HashMap::new`: the map it makes holds no entry.
#[verifier::external_body]
pub(crate) fn flags_new() -> (m: FlagMap)
    ensures
        flag_entries(m) == FlagEntries::empty(),
{
    FlagMap { cells: HashMap::new() }
}

/// `HashMap::get`: the value stored under `key`, or `None` where the map has
/// no entry for it. The map's entries stay as they are.
#[verifier::external_body]
pub(crate) fn flags_get(m: &FlagMap, key: &[u8; 32]) -> (found: Option<bool>)
    ensures
        found == (if flag_entries(*m).dom().contains(key@) {
            Some(flag_entries(*m)[key@])
        } else {
            None
        }),
{
    m.cells.get(key).copied()
}

/// `HashMap::insert`: afterwards `key` is mapped to `value` and every other
/// entry is as before; the value that `key` had before is returned. A key
/// that is new to the map needs space: the map counts its keys in a `u32`
/// and the count must not overflow.
#[verifier::external_body]
pub(crate) fn flags_insert(m: &mut FlagMap, key: [u8; 32], value: bool) -> (previous: Option<bool>)
    requires
        has_room(flag_entries(*old(m)), key@),
    ensures
        flag_entries(*final(m)) == flag_entries(*old(m)).insert(key@, value),
        previous == (if flag_entries(*old(m)).dom().contains(key@) {
            Some(flag_entries(*old(m))[key@])
        } else {
            None
        }),
{
    m.cells.insert(key, value)
}

/// `HashMap::len`: the number of entries of the map.
#[verifier::external_body]
pub(crate) fn flags_len(m: &FlagMap) -> (count: u32)
    ensures
        has_count(flag_entries(*m), count),
{
    m.cells.len()
}

/// `HashMap::new`: the map it makes holds no entry.
#[verifier::external_body]
pub(crate) fn balances_new() -> (m: BalanceMap)
    ensures
        balance_entries(m) == BalanceEntries::empty(),
{
    BalanceMap { cells: HashMap::new() }
}

/// `HashMap::get`: the value stored under `key`, or `None` where the map has
/// no entry for it. The map's entries stay as they are.
#[verifier::external_body]
pub(crate) fn balances_get(m: &BalanceMap, key: &[u8; 32]) -> (found: Option<u128>)
    ensures
        found == (if balance_entries(*m).dom().contains(key@) {
            Some(balance_entries(*m)[key@])
        } else {
            None
        }),
{
    m.cells.get(key).copied()
}

/// `HashMap::insert`: afterwards `key` is mapped to `value` and every other
/// entry is as before; the value that `key` had before is returned. A key
/// that is new to the map needs space: the map counts its keys in a `u32`
/// and the count must not overflow.
#[verifier::external_body]
pub(crate) fn balances_insert(m: &mut BalanceMap, key: [u8; 32], value: u128) -> (previous: Option<u128>)
    requires
        has_room(balance_entries(*old(m)), key@),
    ensures
        balance_entries(*final(m)) == balance_entries(*old(m)).insert(key@, value),
        previous == (if balance_entries(*old(m)).dom().contains(key@) {
            Some(balance_entries(*old(m))[key@])
        } else {
            None
        }),
{
    m.cells.insert(key, value)
}

/// `HashMap::len`: the number of entries of the map.
#[verifier::external_body]
pub(crate) fn balances_len(m: &BalanceMap) -> (count: u32)
    ensures
        has_count(balance_entries(*m), count),
{
    m.cells.len()
}

/// `HashMap::new`: the map it makes holds no entry.
#[verifier::external_body]
pub(crate) fn grants_new() -> (m: GrantMap)
    ensures
        grant_entries(m) == GrantEntries::empty(),
{
    GrantMap { cells: HashMap::new() }
}

/// `HashMap::get`: the value stored under the pair `(store, user)`, or `None`
/// where the map has no entry for it. The map's entries stay as they are.
#[verifier::external_body]
pub(crate) fn grants_get(m: &GrantMap, store: &[u8; 32], user: &[u8; 32]) -> (found: Option<u128>)
    ensures
        found == (if grant_entries(*m).dom().contains((store@, user@)) {
            Some(grant_entries(*m)[(store@, user@)])
        } else {
            None
        }),
{
    m.cells.get(&(*store, *user)).copied()
}

/// `HashMap::insert`: afterwards the pair `(store, user)` is mapped to
/// `value` and every other entry is as before; the value that the pair had
/// before is returned. A pair that is new to the map needs space: the map
/// counts its keys in a `u32` and the count must not overflow.
#[verifier::external_body]
pub(crate) fn grants_insert(m: &mut GrantMap, store: [u8; 32], user: [u8; 32], value: u128) -> (previous: Option<u128>)
    requires
        has_room(grant_entries(*old(m)), (store@, user@)),
    ensures
        grant_entries(*final(m)) == grant_entries(*old(m)).insert((store@, user@), value),
        previous == (if grant_entries(*old(m)).dom().contains((store@, user@)) {
            Some(grant_entries(*old(m))[(store@, user@)])
        } else {
            None
        }),
{
    m.cells.insert((store, user), value)
}

/// `HashMap::len`: the number of entries of the map.
#[verifier::external_body]
pub(crate) fn grants_len(m: &GrantMap) -> (count: u32)
    ensures
        has_count(grant_entries(*m), count),
{
    m.cells.len()
}

} // verus!
