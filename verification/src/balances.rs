//! The storage table that maps an identity to its number.
//!
//! The table itself is `ink_storage::collections::HashMap`. Verus does not
//! look inside it; this module states what its operations do to the
//! entries it holds, and the rest of the crate is verified against these
//! statements.

use vstd::prelude::*;

use ink_storage::collections::HashMap;

verus! {

/// A table from identities (their 32 bytes) to numbers: an
/// `ink_storage::collections::HashMap` that [`empty`] made and that only
/// [`insert`] has written to since. Such a table lives in memory alone, and
/// none of its operations reaches for contract storage.
#[verifier::external_body]
pub struct Balances {
    inner: HashMap<[u8; 32], i32>,
}

/// The entries that a table holds: each key that was inserted, with the
/// value that was inserted last under it.
pub uninterp spec fn balance_entries(balances: Balances) -> Map<Seq<u8>, i32>;

/// Calls `ink_storage::collections::HashMap::new`, which makes a table
/// without entries.
#[verifier::external_body]
pub(crate) fn empty() -> (balances: Balances)
    ensures
        balance_entries(balances) =~= Map::empty(),
{
    Balances { inner: HashMap::new() }
}

/// Calls `ink_storage::collections::HashMap::get`, which returns the value
/// stored under `key`, or `None` where the table has no entry for it.
#[verifier::external_body]
pub(crate) fn get(balances: &Balances, key: &[u8; 32]) -> (found: Option<i32>)
    ensures
        found == balance_entries(*balances).get(key@),
{
    balances.inner.get(key).copied()
}

/// Calls `ink_storage::collections::HashMap::insert`. Afterwards the table
/// holds `value` under `key` and is otherwise unchanged; the value that
/// `key` had before is returned.
///
/// The table counts its keys in a `u32` and panics when that count
/// overflows, so the call is only made while there is room for one more
/// key. With that room the call does not panic.
#[verifier::external_body]
pub(crate) fn insert(balances: &mut Balances, key: [u8; 32], value: i32) -> (previous: Option<i32>)
    requires
        balance_entries(*old(balances)).dom().finite(),
        balance_entries(*old(balances)).dom().len() < u32::MAX,
    ensures
        balance_entries(*final(balances)) == balance_entries(*old(balances)).insert(key@, value),
        previous == balance_entries(*old(balances)).get(key@),
    no_unwind
{
    balances.inner.insert(key, value)
}

} // verus!
