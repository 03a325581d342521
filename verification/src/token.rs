//! The durable credential and the rules on its validity.
//!
//! A `BuilderIdToken` is what a completed login yields and what the store
//! persists. Expiry is judged against a single clock source, in whole
//! seconds since the Unix epoch, and a token within a safety margin of its
//! expiry is treated as needing refresh rather than as valid.

use vstd::prelude::*;

verus! {

/// The mathematical value of a `BuilderIdToken`: every field as a plain
/// sequence or number.
pub ghost struct TokenView {
    pub access_token: Seq<u8>,
    pub refresh_token: Option<Seq<u8>>,
    pub expires_at_epoch_s: u64,
    pub region: Seq<u8>,
    pub start_url: Seq<u8>,
    pub scopes: Seq<Seq<u8>>,
}

/// The durable credential: the access token, an optional refresh token, the
/// expiry instant, and the issuance parameters that refresh must preserve.
#[derive(Clone, Debug, PartialEq, Eq)]
pub struct BuilderIdToken {
    /// The bearer credential itself. Secret.
    pub access_token: Vec<u8>,
    /// The credential a refresh grant presents. Secret; absent when the
    /// provider issued none.
    pub refresh_token: Option<Vec<u8>>,
    /// When the access token expires, in seconds since the Unix epoch.
    pub expires_at_epoch_s: u64,
    /// The provider region the token was issued against.
    pub region: Vec<u8>,
    /// The start URL the token was issued for.
    pub start_url: Vec<u8>,
    /// The scopes the token carries.
    pub scopes: Vec<Vec<u8>>,
}

impl View for BuilderIdToken {
    type V = TokenView;

    open spec fn view(&self) -> TokenView {
        TokenView {
            access_token: self.access_token@,
            refresh_token: match self.refresh_token {
                Option::Some(rt) => Option::Some(rt@),
                Option::None => Option::None,
            },
            expires_at_epoch_s: self.expires_at_epoch_s,
            region: self.region@,
            start_url: self.start_url@,
            scopes: self.scopes.deep_view(),
        }
    }
}

/// A token needs refresh once the clock is within the safety margin of its
/// expiry, or past it.
pub open spec fn spec_needs_refresh(t: TokenView, now_epoch_s: u64, margin_s: u64) -> bool {
    t.expires_at_epoch_s <= now_epoch_s + margin_s
}

/// A token is expired outright once the clock reaches its expiry.
pub open spec fn spec_is_expired(t: TokenView, now_epoch_s: u64) -> bool {
    t.expires_at_epoch_s <= now_epoch_s
}

impl BuilderIdToken {
    /// True iff the clock has reached this token's expiry.
    pub fn is_expired_at(&self, now_epoch_s: u64) -> (r: bool)
        ensures
            r == spec_is_expired(self@, now_epoch_s),
    {
        self.expires_at_epoch_s <= now_epoch_s
    }

    /// True iff the clock is within `margin_s` of this token's expiry, or
    /// past it, so that a proactive refresh is due.
    pub fn needs_refresh_at(&self, now_epoch_s: u64, margin_s: u64) -> (r: bool)
        ensures
            r == spec_needs_refresh(self@, now_epoch_s, margin_s),
    {
        if self.expires_at_epoch_s <= now_epoch_s {
            true
        } else {
            self.expires_at_epoch_s - now_epoch_s <= margin_s
        }
    }
}

/// Relies on time::OffsetDateTime::now_utc and its unix_timestamp: whole
/// seconds since the Unix epoch by the system clock. Nothing is assumed of
/// the value.
#[verifier::external_body]
fn unix_timestamp_now() -> (r: i64) {
    time::OffsetDateTime::now_utc().unix_timestamp()
}

/// The current clock reading, clamped below at the epoch. Every lifecycle
/// judgment takes an instant as an argument; this is the single source
/// callers draw that instant from.
pub fn now_epoch_seconds() -> (r: u64) {
    let t = unix_timestamp_now();
    if t < 0 {
        0
    } else {
        t as u64
    }
}

} // verus!
