//! Device authorization: the single request that starts one login attempt.
//!
//! The request carries the client identity, the start URL and the PKCE
//! challenge; the response carries the codes the user and the poller need,
//! and the interval and expiry that bound the polling loop. The
//! authorization is consumed entirely by the poller and never persisted.

use vstd::prelude::*;

use crate::pkce::ChallengeMethod;
use crate::pkce::PkceCodes;
use crate::poller::PollState;
use crate::registrar::ClientRegistration;

verus! {

/// The polling interval used when the provider names none, in seconds.
pub const DEFAULT_POLL_INTERVAL_S: u64 = 5;

/// What the device-authorization request sends.
#[derive(Clone, Debug, PartialEq, Eq)]
pub struct StartDeviceRequest {
    pub client_id: Vec<u8>,
    pub client_secret: Vec<u8>,
    pub start_url: Vec<u8>,
    pub code_challenge: Vec<u8>,
    pub code_challenge_method: ChallengeMethod,
}

/// One granted device authorization: the codes to show and to poll with,
/// and the bounds of the polling loop.
#[derive(Clone, Debug, PartialEq, Eq)]
pub struct DeviceAuthorization {
    /// The opaque code the poller presents to the token endpoint.
    pub device_code: Vec<u8>,
    /// The short code the user enters in the browser.
    pub user_code: Vec<u8>,
    /// Where the user authorizes.
    pub verification_uri: Vec<u8>,
    /// The verification URI with the user code already embedded, when the
    /// provider returned one.
    pub verification_uri_complete: Option<Vec<u8>>,
    /// Seconds to wait between polls, at the start.
    pub interval_s: u64,
    /// When the device code expires, in seconds since the Unix epoch.
    pub expires_at_epoch_s: u64,
}

/// Build the device-authorization request: the attempt's challenge travels
/// with the client identity and start URL, so the later token exchange is
/// bound to the verifier generated here.
pub fn start_request(
    reg: &ClientRegistration,
    pkce: &PkceCodes,
    start_url: &Vec<u8>,
) -> (r: StartDeviceRequest)
    ensures
        r.client_id@ == reg.client_id@,
        r.client_secret@ == reg.client_secret@,
        r.start_url@ == start_url@,
        r.code_challenge@ == pkce.challenge@,
        r.code_challenge_method == pkce.challenge_method,
{
    StartDeviceRequest {
        client_id: reg.client_id.clone(),
        client_secret: reg.client_secret.clone(),
        start_url: start_url.clone(),
        code_challenge: pkce.challenge.clone(),
        code_challenge_method: pkce.challenge_method,
    }
}

/// Interpret the provider's response: the interval it named, or the
/// default when it named none or named zero, and an absolute expiry from
/// its relative one.
pub fn device_authorization_from(
    now_epoch_s: u64,
    device_code: Vec<u8>,
    user_code: Vec<u8>,
    verification_uri: Vec<u8>,
    verification_uri_complete: Option<Vec<u8>>,
    interval_s: Option<u64>,
    expires_in_s: u64,
) -> (r: DeviceAuthorization)
    requires
        now_epoch_s + expires_in_s <= u64::MAX,
    ensures
        r.device_code@ == device_code@,
        r.user_code@ == user_code@,
        r.verification_uri@ == verification_uri@,
        r.verification_uri_complete == verification_uri_complete,
        r.interval_s == match interval_s {
            Option::Some(i) => if i > 0 {
                i
            } else {
                DEFAULT_POLL_INTERVAL_S
            },
            Option::None => DEFAULT_POLL_INTERVAL_S,
        },
        r.expires_at_epoch_s == now_epoch_s + expires_in_s,
{
    let interval_s = match interval_s {
        Option::Some(i) => if i > 0 {
            i
        } else {
            DEFAULT_POLL_INTERVAL_S
        },
        Option::None => DEFAULT_POLL_INTERVAL_S,
    };
    DeviceAuthorization {
        device_code,
        user_code,
        verification_uri,
        verification_uri_complete,
        interval_s,
        expires_at_epoch_s: now_epoch_s + expires_in_s,
    }
}

impl DeviceAuthorization {
    /// The poller's starting state for this authorization: its interval,
    /// bounded by its expiry.
    pub fn initial_poll_state(&self) -> (r: PollState)
        ensures
            r.interval_s == self.interval_s,
            r.deadline_epoch_s == self.expires_at_epoch_s,
    {
        PollState { interval_s: self.interval_s, deadline_epoch_s: self.expires_at_epoch_s }
    }
}

} // verus!
