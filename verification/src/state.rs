//! The shared application state: registration slot, authentication tokens,
//! and cancellation registry.
//!
//! All timestamps are milliseconds since the Unix epoch. Expiry is lazy:
//! nothing is purged in the background, a stale entry is simply treated as
//! absent at validation time. Each validating operation exists in two
//! forms: one that takes the timestamp to judge against as an argument and
//! carries the exact contract, and one that reads the system clock and
//! delegates to it.

use vstd::prelude::*;

use crate::clock::now_millis;
use crate::sync_map::{
    auth_contents, auth_map_get, auth_map_insert, auth_map_new, auth_map_remove, cancel_contents,
    cancel_map_insert, cancel_map_new, cancel_map_remove,
};
use dashmap::DashMap;
use tokio_util::sync::CancellationToken;

verus! {

/// How long a pending registration stays valid, in milliseconds.
pub const REGISTRATION_TTL_MILLIS: i64 = 300000;

/// Relies on str's PartialEq: string slices are equal exactly when their
/// characters are equal.
pub assume_specification[ <str as PartialEq<str>>::eq ](s: &str, other: &str) -> (r: bool)
    ensures
        r == (s@ == other@),
;

/// The expiry assigned to a registration set at time `now`: five minutes
/// later, saturating at the largest representable timestamp.
pub open spec fn registration_expiry(now: i64) -> i64 {
    if now + REGISTRATION_TTL_MILLIS <= i64::MAX {
        (now + REGISTRATION_TTL_MILLIS) as i64
    } else {
        i64::MAX
    }
}

/// The process-wide state store, constructed once and shared with every
/// request-handling unit and with the presentation layer.
pub struct AppState {
    /// Authentication tokens, each mapped to its expiry.
    pub auth_tokens: DashMap<String, i64>,
    /// Cancellation handles for in-flight requests, keyed by request id.
    pub cancellation_tokens: DashMap<usize, CancellationToken>,
    /// The single pending registration, as value and expiry, if any.
    pub current_registration: Option<(String, i64)>,
}

impl AppState {
    /// The authentication tokens as a map from token characters to expiry.
    pub open spec fn auth_view(self) -> Map<Seq<char>, i64> {
        auth_contents(self.auth_tokens)
    }

    /// The cancellation registry as a map from request id to handle.
    pub open spec fn cancel_view(self) -> Map<usize, CancellationToken> {
        cancel_contents(self.cancellation_tokens)
    }

    /// The pending registration, as value characters and expiry, if any.
    pub open spec fn registration_view(self) -> Option<(Seq<char>, i64)> {
        match self.current_registration {
            Some(pair) => Some((pair.0@, pair.1)),
            None => None,
        }
    }

    /// Whether `token` is present and unexpired as of `now`.
    pub open spec fn auth_token_valid(self, token: Seq<char>, now: i64) -> bool {
        &&& self.auth_view().contains_key(token)
        &&& now < self.auth_view()[token]
    }

    /// Whether the pending registration is present, equals `value`, and is
    /// unexpired as of `now`.
    pub open spec fn registration_valid(self, value: Seq<char>, now: i64) -> bool {
        match self.registration_view() {
            Some(pair) => pair.0 == value && now < pair.1,
            None => false,
        }
    }

    /// A fresh store: no registration, no tokens, no cancellation handles.
    pub fn new() -> (s: AppState)
        ensures
            s.auth_view() == crate::sync_map::empty_auth_map(),
            s.cancel_view() == crate::sync_map::empty_cancel_map(),
            s.registration_view() is None,
    {
        AppState {
            auth_tokens: auth_map_new(),
            cancellation_tokens: cancel_map_new(),
            current_registration: None,
        }
    }

    /// Unconditionally replaces the pending registration with `registration`,
    /// expiring five minutes after `now`. Last writer wins; never fails.
    pub fn set_registration_at(&mut self, registration: String, now: i64)
        ensures
            final(self).registration_view() == Some((registration@, registration_expiry(now))),
            final(self).auth_tokens == old(self).auth_tokens,
            final(self).cancellation_tokens == old(self).cancellation_tokens,
    {
        let expiry: i64 = if now <= i64::MAX - REGISTRATION_TTL_MILLIS {
            now + REGISTRATION_TTL_MILLIS
        } else {
            i64::MAX
        };
        self.current_registration = Some((registration, expiry));
    }

    /// Replaces the pending registration, expiring five minutes from the
    /// current system time.
    pub fn set_registration(&mut self, registration: String)
        ensures
            (final(self).registration_view() matches Some(pair) && pair.0 == registration@),
            final(self).auth_tokens == old(self).auth_tokens,
            final(self).cancellation_tokens == old(self).cancellation_tokens,
    {
        let now: i64 = now_millis();
        self.set_registration_at(registration, now);
    }

    /// True iff a pending registration exists, its value equals
    /// `registration` exactly, and `now` is before its expiry. Mutates
    /// nothing: repeated validation within the window keeps succeeding.
    pub fn validate_registration_at(&self, registration: &str, now: i64) -> (r: bool)
        ensures
            r == self.registration_valid(registration@, now),
    {
        match &self.current_registration {
            Some(pair) => pair.0.as_str().eq(registration) && now < pair.1,
            None => false,
        }
    }

    /// Validates `registration` against the current system time.
    pub fn validate_registration(&self, registration: &str) -> (r: bool)
        ensures
            r ==> (self.registration_view() matches Some(pair) && pair.0 == registration@),
    {
        let now: i64 = now_millis();
        self.validate_registration_at(registration, now)
    }

    /// Removes and returns the pending registration, if any. Never fails.
    pub fn clear_registration(&mut self) -> (r: Option<(String, i64)>)
        ensures
            final(self).registration_view() is None,
            final(self).auth_tokens == old(self).auth_tokens,
            final(self).cancellation_tokens == old(self).cancellation_tokens,
            (match r {
                Some(pair) => old(self).registration_view() == Some((pair.0@, pair.1)),
                None => old(self).registration_view() is None,
            }),
    {
        self.current_registration.take()
    }

    /// The pending registration, for display, without mutating it.
    pub fn list_registrations(&self) -> (r: Option<(String, i64)>)
        ensures
            (match r {
                Some(pair) => self.registration_view() == Some((pair.0@, pair.1)),
                None => self.registration_view() is None,
            }),
    {
        match &self.current_registration {
            Some(pair) => Some((pair.0.clone(), pair.1)),
            None => None,
        }
    }

    /// Inserts `token` with `expiry`, replacing any prior expiry for the
    /// same token. Never fails.
    pub fn set_auth_token(&mut self, token: String, expiry: i64)
        ensures
            final(self).auth_view() == old(self).auth_view().insert(token@, expiry),
            final(self).cancellation_tokens == old(self).cancellation_tokens,
            final(self).current_registration == old(self).current_registration,
    {
        auth_map_insert(&mut self.auth_tokens, token, expiry);
    }

    /// True iff an entry exists for `token` and `now` is before its
    /// expiry. An expired entry is treated as absent but not removed.
    pub fn validate_auth_token_at(&self, token: &str, now: i64) -> (r: bool)
        ensures
            r == self.auth_token_valid(token@, now),
    {
        match auth_map_get(&self.auth_tokens, token) {
            Some(expiry) => now < expiry,
            None => false,
        }
    }

    /// Validates `token` against the current system time.
    pub fn validate_auth_token(&self, token: &str) -> (r: bool)
        ensures
            r ==> self.auth_view().contains_key(token@),
    {
        let now: i64 = now_millis();
        self.validate_auth_token_at(token, now)
    }

    /// Removes `token` if present; a no-op when it is absent.
    pub fn remove_auth_token(&mut self, token: &str)
        ensures
            final(self).auth_view() == old(self).auth_view().remove(token@),
            final(self).cancellation_tokens == old(self).cancellation_tokens,
            final(self).current_registration == old(self).current_registration,
    {
        auth_map_remove(&mut self.auth_tokens, token);
    }

    /// Registers `token` as the cancellation handle for `req_id`,
    /// replacing any handle already registered for that id (the old handle
    /// is orphaned, never fired by the store).
    pub fn add_cancellation_token(&mut self, req_id: usize, token: CancellationToken)
        ensures
            final(self).cancel_view() == old(self).cancel_view().insert(req_id, token),
            final(self).auth_tokens == old(self).auth_tokens,
            final(self).current_registration == old(self).current_registration,
    {
        cancel_map_insert(&mut self.cancellation_tokens, req_id, token);
    }

    /// Removes and returns the handle registered for `req_id`, if any.
    /// Whoever receives the handle is its sole owner, so firing it after
    /// removal happens at most once per registered handle.
    pub fn remove_cancellation_token(&mut self, req_id: usize) -> (r: Option<(usize, CancellationToken)>)
        ensures
            final(self).cancel_view() == old(self).cancel_view().remove(req_id),
            r == (if old(self).cancel_view().contains_key(req_id) {
                Some((req_id, old(self).cancel_view()[req_id]))
            } else {
                None::<(usize, CancellationToken)>
            }),
            final(self).auth_tokens == old(self).auth_tokens,
            final(self).current_registration == old(self).current_registration,
    {
        cancel_map_remove(&mut self.cancellation_tokens, req_id)
    }
}

} // verus!
