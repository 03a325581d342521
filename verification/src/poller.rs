//! The token poller: the core state machine of a login attempt.
//!
//! After device authorization starts, the caller repeatedly sleeps for the
//! current interval, calls the token endpoint, and feeds the classified
//! response into `step`. Pending keeps the interval; slow-down raises it by
//! a fixed amount and keeps polling; expiry, denial, a transport error and
//! issuance are terminal. The loop never outlives the device
//! authorization: once its deadline has passed without issuance, `step`
//! forces the expired outcome even on a pending response, so the loop
//! terminates.

use vstd::prelude::*;

use crate::error::AuthError;
use crate::pkce::spec_challenge_of;
use crate::pkce::PkceCodes;
use crate::registrar::ClientRegistration;

verus! {

/// How many seconds a slow-down response adds to the polling interval.
pub const SLOW_DOWN_STEP_S: u64 = 5;

/// What a successful token-endpoint call carries.
#[derive(Clone, Debug, PartialEq, Eq)]
pub struct TokenPayload {
    /// The issued access token.
    pub access_token: Vec<u8>,
    /// The issued refresh token, when the provider returned one.
    pub refresh_token: Option<Vec<u8>>,
    /// The issued token's lifetime, in seconds from issuance.
    pub expires_in_s: u64,
}

/// One token-endpoint response, classified by the caller that made the
/// wire call.
#[derive(Clone, Debug, PartialEq, Eq)]
pub enum PollResponse {
    /// The user has not finished authorizing in the browser yet.
    Pending,
    /// The provider asks for a longer polling interval.
    SlowDown,
    /// The device code has expired server-side.
    ExpiredToken,
    /// The user rejected the authorization request.
    AccessDenied,
    /// Any other transport or provider failure.
    TransportError(String),
    /// The provider issued the credential.
    Issued(TokenPayload),
}

/// The poller's state between calls: how long to sleep before the next
/// call, and the instant past which the attempt is over.
#[derive(Clone, Copy, Debug, PartialEq, Eq, Structural)]
pub struct PollState {
    /// Seconds to sleep before the next token-endpoint call.
    pub interval_s: u64,
    /// The device authorization's expiry: no poll may start past it.
    pub deadline_epoch_s: u64,
}

/// Where one transition leads: keep polling in a new state, or stop with
/// the issued payload or a terminal error.
#[derive(Clone, Debug, PartialEq, Eq)]
pub enum PollStep {
    /// Sleep for the state's interval, poll again, and step on the response.
    Continue(PollState),
    /// The credential was issued; the attempt is over.
    Succeeded(TokenPayload),
    /// The attempt is over without a credential.
    Failed(AuthError),
}

/// The interval after a slow-down response: one fixed step longer, capped
/// only by the width of the counter.
pub open spec fn spec_slowed_interval(interval_s: u64) -> u64 {
    if interval_s + SLOW_DOWN_STEP_S <= u64::MAX {
        (interval_s + SLOW_DOWN_STEP_S) as u64
    } else {
        u64::MAX
    }
}

/// The complete transition relation of the poller. Issuance, denial,
/// server-side expiry and transport errors are terminal whatever the
/// clock says; pending and slow-down continue only within the deadline and
/// are forced to the expired outcome once past it.
pub open spec fn spec_step(st: PollState, now_epoch_s: u64, resp: PollResponse) -> PollStep {
    match resp {
        PollResponse::Issued(payload) => PollStep::Succeeded(payload),
        PollResponse::AccessDenied => PollStep::Failed(AuthError::PollDenied),
        PollResponse::ExpiredToken => PollStep::Failed(AuthError::PollExpired),
        PollResponse::TransportError(cause) => PollStep::Failed(
            AuthError::PollTransportError(cause),
        ),
        PollResponse::Pending => {
            if now_epoch_s >= st.deadline_epoch_s {
                PollStep::Failed(AuthError::PollExpired)
            } else {
                PollStep::Continue(st)
            }
        },
        PollResponse::SlowDown => {
            if now_epoch_s >= st.deadline_epoch_s {
                PollStep::Failed(AuthError::PollExpired)
            } else {
                PollStep::Continue(
                    PollState {
                        interval_s: spec_slowed_interval(st.interval_s),
                        deadline_epoch_s: st.deadline_epoch_s,
                    },
                )
            }
        },
    }
}

/// Take one transition of the poller on a classified response.
pub fn step(st: PollState, now_epoch_s: u64, resp: PollResponse) -> (r: PollStep)
    ensures
        r == spec_step(st, now_epoch_s, resp),
{
    match resp {
        PollResponse::Issued(payload) => PollStep::Succeeded(payload),
        PollResponse::AccessDenied => PollStep::Failed(AuthError::PollDenied),
        PollResponse::ExpiredToken => PollStep::Failed(AuthError::PollExpired),
        PollResponse::TransportError(cause) => PollStep::Failed(
            AuthError::PollTransportError(cause),
        ),
        PollResponse::Pending => {
            if now_epoch_s >= st.deadline_epoch_s {
                PollStep::Failed(AuthError::PollExpired)
            } else {
                PollStep::Continue(st)
            }
        },
        PollResponse::SlowDown => {
            if now_epoch_s >= st.deadline_epoch_s {
                PollStep::Failed(AuthError::PollExpired)
            } else {
                let interval_s = if st.interval_s <= u64::MAX - SLOW_DOWN_STEP_S {
                    st.interval_s + SLOW_DOWN_STEP_S
                } else {
                    u64::MAX
                };
                PollStep::Continue(PollState { interval_s, deadline_epoch_s: st.deadline_epoch_s })
            }
        },
    }
}

/// What one token-endpoint call sends: the client identity, the device
/// code under poll, and the PKCE verifier bound to the attempt's challenge.
#[derive(Clone, Debug, PartialEq, Eq)]
pub struct PollRequest {
    pub client_id: Vec<u8>,
    pub client_secret: Vec<u8>,
    pub device_code: Vec<u8>,
    pub code_verifier: Vec<u8>,
}

/// Build the token-endpoint request for one poll, refusing any attempt
/// whose verifier is not the one bound to the challenge sent earlier: a
/// mismatch is a protocol violation, fatal to the attempt, never retried.
pub fn poll_request(
    reg: &ClientRegistration,
    device_code: &Vec<u8>,
    pkce: &PkceCodes,
) -> (r: Result<PollRequest, AuthError>)
    ensures
        r is Ok <==> pkce.challenge@ == spec_challenge_of(pkce.verifier@),
        match r {
            Result::Ok(q) => {
                &&& q.client_id@ == reg.client_id@
                &&& q.client_secret@ == reg.client_secret@
                &&& q.device_code@ == device_code@
                &&& q.code_verifier@ == pkce.verifier@
            },
            Result::Err(e) => e == AuthError::StateOrPkceMismatch,
        },
{
    if !pkce.binding_holds() {
        return Result::Err(AuthError::StateOrPkceMismatch);
    }
    Result::Ok(
        PollRequest {
            client_id: reg.client_id.clone(),
            client_secret: reg.client_secret.clone(),
            device_code: device_code.clone(),
            code_verifier: pkce.verifier.clone(),
        },
    )
}

/// Law: a slow-down response, and only a slow-down response, lengthens the
/// polling interval — by exactly one step — and no transition shortens it
/// or moves the deadline.
pub proof fn lemma_interval_grows_only_on_slow_down(
    st: PollState,
    now_epoch_s: u64,
    resp: PollResponse,
)
    requires
        st.interval_s + SLOW_DOWN_STEP_S <= u64::MAX,
        spec_step(st, now_epoch_s, resp) is Continue,
    ensures
        spec_step(st, now_epoch_s, resp)->Continue_0.deadline_epoch_s == st.deadline_epoch_s,
        resp is SlowDown ==> spec_step(st, now_epoch_s, resp)->Continue_0.interval_s
            == st.interval_s + SLOW_DOWN_STEP_S,
        !(resp is SlowDown) ==> spec_step(st, now_epoch_s, resp)->Continue_0.interval_s
            == st.interval_s,
{
}

/// Law: once the deadline has passed, no response but an issuance
/// continues the attempt — it ends, and ends in the expired, denied or
/// transport outcome its response names, never in a silent retry.
pub proof fn lemma_deadline_forces_termination(st: PollState, now_epoch_s: u64, resp: PollResponse)
    requires
        now_epoch_s >= st.deadline_epoch_s,
    ensures
        !(spec_step(st, now_epoch_s, resp) is Continue),
        resp is Pending ==> spec_step(st, now_epoch_s, resp) == PollStep::Failed(
            AuthError::PollExpired,
        ),
        resp is SlowDown ==> spec_step(st, now_epoch_s, resp) == PollStep::Failed(
            AuthError::PollExpired,
        ),
{
}

/// Law: a server-side expiry response ends the attempt as expired, whatever
/// the state and clock: the whole login must be retried from scratch.
pub proof fn lemma_expired_response_is_terminal(st: PollState, now_epoch_s: u64)
    ensures
        spec_step(st, now_epoch_s, PollResponse::ExpiredToken) == PollStep::Failed(
            AuthError::PollExpired,
        ),
{
}

} // verus!
