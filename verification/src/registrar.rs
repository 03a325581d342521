//! The OAuth client registration a login attempt acts under.
//!
//! Registration is obtained from the identity provider's client-registration
//! endpoint by the caller; this module holds the resulting identity and the
//! rule for when a cached one may be reused: until its expiry, and not a
//! second longer. Registration failures are not retried here — the caller
//! decides retry policy.

use vstd::prelude::*;

verus! {

/// A registered OAuth client identity, reusable until it expires.
#[derive(Clone, Debug, PartialEq, Eq)]
pub struct ClientRegistration {
    /// The client id the provider issued.
    pub client_id: Vec<u8>,
    /// The client secret the provider issued. Secret.
    pub client_secret: Vec<u8>,
    /// When this registration expires, in seconds since the Unix epoch.
    pub expires_at_epoch_s: u64,
}

/// A cached registration is usable strictly before its expiry.
pub open spec fn spec_registration_usable(reg: ClientRegistration, now_epoch_s: u64) -> bool {
    now_epoch_s < reg.expires_at_epoch_s
}

impl ClientRegistration {
    /// True iff this registration may still be used at `now_epoch_s`; an
    /// expired one must be discarded and a fresh one registered.
    pub fn is_usable_at(&self, now_epoch_s: u64) -> (r: bool)
        ensures
            r == spec_registration_usable(*self, now_epoch_s),
    {
        now_epoch_s < self.expires_at_epoch_s
    }
}

} // verus!
