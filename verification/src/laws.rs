//! Laws relating the store's operations across calls.

use vstd::prelude::*;

use crate::state::{registration_expiry, AppState, REGISTRATION_TTL_MILLIS};

verus! {

/// After a token is stored with expiry `expiry`, validating that token at
/// time `now` succeeds exactly when `now` is before `expiry`: always,
/// immediately after the write, when the expiry is in the future, and
/// never when it is in the past.
pub proof fn lemma_set_auth_token_then_validate(
    pre: AppState,
    post: AppState,
    token: Seq<char>,
    expiry: i64,
    now: i64,
)
    requires
        post.auth_view() == pre.auth_view().insert(token, expiry),
    ensures
        post.auth_token_valid(token, now) <==> now < expiry,
{
}

/// After a token is removed, validating it fails, whatever was stored
/// before and whatever the time.
pub proof fn lemma_remove_auth_token_then_validate(
    pre: AppState,
    post: AppState,
    token: Seq<char>,
    now: i64,
)
    requires
        post.auth_view() == pre.auth_view().remove(token),
    ensures
        !post.auth_token_valid(token, now),
{
}

/// Storing one token leaves the validity of every other token unchanged:
/// writers of distinct tokens do not interfere.
pub proof fn lemma_set_auth_token_preserves_others(
    pre: AppState,
    post: AppState,
    token: Seq<char>,
    expiry: i64,
    other: Seq<char>,
    now: i64,
)
    requires
        post.auth_view() == pre.auth_view().insert(token, expiry),
        other != token,
    ensures
        post.auth_token_valid(other, now) <==> pre.auth_token_valid(other, now),
{
}

/// Immediately after a registration is set at time `now` (any instant
/// short of the largest representable one), validating the same value at
/// `now` succeeds, and validating any other value fails.
pub proof fn lemma_set_registration_then_validate(
    s: AppState,
    value: Seq<char>,
    other: Seq<char>,
    now: i64,
)
    requires
        s.registration_view() == Some((value, registration_expiry(now))),
        other != value,
        now < i64::MAX,
    ensures
        s.registration_valid(value, now),
        !s.registration_valid(other, now),
{
}

/// A registration set at time `set_time` validates at time `t` exactly
/// when `t` is before `set_time` plus the five-minute window: true up to
/// the last instant before expiry, false from the expiry instant on.
pub proof fn lemma_registration_window(s: AppState, value: Seq<char>, set_time: i64, t: i64)
    requires
        s.registration_view() == Some((value, registration_expiry(set_time))),
        set_time + REGISTRATION_TTL_MILLIS <= i64::MAX,
    ensures
        s.registration_valid(value, t) <==> t < set_time + REGISTRATION_TTL_MILLIS,
{
}

/// A handle registered for an id is returned by the first removal of that
/// id, and the id is absent afterwards, so a second removal returns
/// nothing: removal transfers sole ownership of the handle exactly once.
pub proof fn lemma_cancellation_removed_once(
    pre: AppState,
    registered: AppState,
    removed: AppState,
    req_id: usize,
    handle: tokio_util::sync::CancellationToken,
)
    requires
        registered.cancel_view() == pre.cancel_view().insert(req_id, handle),
        removed.cancel_view() == registered.cancel_view().remove(req_id),
    ensures
        registered.cancel_view().contains_key(req_id),
        registered.cancel_view()[req_id] == handle,
        !removed.cancel_view().contains_key(req_id),
{
}

} // verus!
