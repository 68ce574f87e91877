//! Trusted interface to the shared concurrent maps backing the state core.
//!
//! The store keeps its token and cancellation tables in `dashmap::DashMap`,
//! a sharded hash map that arbitrates concurrent access internally. The
//! maps are opaque to the verifier; their contents are named by
//! uninterpreted spec functions, and each operation the store uses is
//! wrapped in a function whose contract states, over those names, what the
//! map's documentation promises.

use vstd::prelude::*;

use dashmap::DashMap;
use tokio_util::sync::CancellationToken;

verus! {

#[verifier::external_type_specification]
#[verifier::external_body]
#[verifier::reject_recursive_types(K)]
#[verifier::reject_recursive_types(V)]
#[verifier::reject_recursive_types(S)]
pub struct ExDashMap<K, V, S>(DashMap<K, V, S>);

#[verifier::external_type_specification]
#[verifier::external_body]
pub struct ExCancellationToken(CancellationToken);

/// The entries of an authentication-token map: token characters to expiry
/// in milliseconds.
pub uninterp spec fn auth_contents(m: DashMap<String, i64>) -> Map<Seq<char>, i64>;

/// The empty authentication-token map.
pub open spec fn empty_auth_map() -> Map<Seq<char>, i64> {
    Map::empty()
}

/// The empty cancellation registry.
pub open spec fn empty_cancel_map() -> Map<usize, CancellationToken> {
    Map::empty()
}

/// The entries of a cancellation registry: request identifier to the
/// handle registered for it.
pub uninterp spec fn cancel_contents(m: DashMap<usize, CancellationToken>) -> Map<usize, CancellationToken>;

/// Relies on dashmap::DashMap::new: the new map is empty.
#[verifier::external_body]
pub(crate) fn auth_map_new() -> (m: DashMap<String, i64>)
    ensures
        auth_contents(m) == empty_auth_map(),
{
    DashMap::new()
}

/// Relies on dashmap::DashMap::insert: inserts the pair, replacing any
/// entry with the same key.
#[verifier::external_body]
pub(crate) fn auth_map_insert(m: &mut DashMap<String, i64>, key: String, value: i64)
    ensures
        auth_contents(*final(m)) == auth_contents(*old(m)).insert(key@, value),
{
    m.insert(key, value);
}

/// Relies on dashmap::DashMap::get: returns the value stored under the
/// key, if the key is present.
#[verifier::external_body]
pub(crate) fn auth_map_get(m: &DashMap<String, i64>, key: &str) -> (r: Option<i64>)
    ensures
        r == (if auth_contents(*m).contains_key(key@) {
            Some(auth_contents(*m)[key@])
        } else {
            None::<i64>
        }),
{
    m.get(key).map(|entry| *entry)
}

/// Relies on dashmap::DashMap::remove: removes the entry with the key, if
/// there is one.
#[verifier::external_body]
pub(crate) fn auth_map_remove(m: &mut DashMap<String, i64>, key: &str)
    ensures
        auth_contents(*final(m)) == auth_contents(*old(m)).remove(key@),
{
    m.remove(key);
}

/// Relies on dashmap::DashMap::new: the new map is empty.
#[verifier::external_body]
pub(crate) fn cancel_map_new() -> (m: DashMap<usize, CancellationToken>)
    ensures
        cancel_contents(m) == empty_cancel_map(),
{
    DashMap::new()
}

/// Relies on dashmap::DashMap::insert: inserts the pair, replacing any
/// entry with the same key.
#[verifier::external_body]
pub(crate) fn cancel_map_insert(m: &mut DashMap<usize, CancellationToken>, key: usize, value: CancellationToken)
    ensures
        cancel_contents(*final(m)) == cancel_contents(*old(m)).insert(key, value),
{
    m.insert(key, value);
}

/// Relies on dashmap::DashMap::remove: removes and returns the entry with
/// the key, if there is one.
#[verifier::external_body]
pub(crate) fn cancel_map_remove(m: &mut DashMap<usize, CancellationToken>, key: usize) -> (r: Option<(usize, CancellationToken)>)
    ensures
        cancel_contents(*final(m)) == cancel_contents(*old(m)).remove(key),
        r == (if cancel_contents(*old(m)).contains_key(key) {
            Some((key, cancel_contents(*old(m))[key]))
        } else {
            None::<(usize, CancellationToken)>
        }),
{
    m.remove(&key)
}

} // verus!
