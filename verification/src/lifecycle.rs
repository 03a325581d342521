//! The token lifecycle manager: login completion, presence, refresh and
//! logout, composed over the store.
//!
//! The wire calls of a login attempt happen outside; what is enforced here
//! is the lifecycle itself. A login writes the store only on full success —
//! no failure leaves a partial token behind. Presence asks only whether a
//! credential exists. Refresh touches the network only inside the safety
//! margin, and only with a refresh token in hand. Logout's one success
//! criterion is that the token is gone; a failed settings clear is a
//! warning, never the result.

use vstd::prelude::*;

use crate::codec::spec_encode;
use crate::error::AuthError;
use crate::poller::PollStep;
use crate::poller::TokenPayload;
use crate::store::spec_has_token;
use crate::store::TokenStore;
use crate::token::spec_needs_refresh;
use crate::token::BuilderIdToken;
use crate::token::TokenView;

verus! {

/// The safety margin before expiry within which a token is refreshed
/// proactively, in seconds.
pub const DEFAULT_REFRESH_MARGIN_S: u64 = 300;

/// True iff a credential is stored: presence, not validity — an expired
/// token still counts as logged in until logout or a failed refresh
/// decides otherwise.
pub fn is_logged_in(store: &TokenStore) -> (r: bool)
    ensures
        r == spec_has_token(store@),
{
    store.has_token()
}

/// What logout reports on success.
#[derive(Clone, Copy, Debug, PartialEq, Eq, Structural)]
pub struct LogoutReport {
    /// True when the settings collaborator failed to clear the profile
    /// override: surfaced for observability, non-fatal to the logout.
    pub settings_warning: bool,
}

/// Conclude a logout from the outcomes of the two external deletions: the
/// persistence layer's token delete and the settings collaborator's
/// override clear. Removing the token is the success criterion; a failed
/// settings clear only sets the warning. Only a failed token delete leaves
/// the credential in place and fails the logout.
pub fn logout(
    store: &mut TokenStore,
    token_delete_ok: bool,
    settings_clear_ok: bool,
) -> (r: Result<LogoutReport, AuthError>)
    ensures
        token_delete_ok ==> {
            &&& final(store)@ is None
            &&& !spec_has_token(final(store)@)
            &&& r == Result::<LogoutReport, AuthError>::Ok(
                LogoutReport { settings_warning: !settings_clear_ok },
            )
        },
        !token_delete_ok ==> {
            &&& final(store)@ == old(store)@
            &&& r matches Result::Err(e) && e is PersistenceFailure
        },
{
    if !token_delete_ok {
        return Result::Err(
            AuthError::PersistenceFailure("token record could not be deleted".to_owned()),
        );
    }
    store.delete();
    Result::Ok(LogoutReport { settings_warning: !settings_clear_ok })
}

/// The token a completed poll yields, assembled from the issued payload
/// and the attempt's issuance parameters.
pub open spec fn spec_issued_token(
    payload: TokenPayload,
    now_epoch_s: u64,
    region: Seq<u8>,
    start_url: Seq<u8>,
    scopes: Seq<Seq<u8>>,
) -> TokenView {
    TokenView {
        access_token: payload.access_token@,
        refresh_token: match payload.refresh_token {
            Option::Some(rt) => Option::Some(rt@),
            Option::None => Option::None,
        },
        expires_at_epoch_s: (now_epoch_s + payload.expires_in_s) as u64,
        region,
        start_url,
        scopes,
    }
}

/// Conclude a login attempt from the poller's terminal step. Only full
/// success writes the store — and then atomically, with the complete new
/// token; every failure leaves the store exactly as it was and surfaces
/// the poller's error unchanged.
pub fn complete_login(
    store: &mut TokenStore,
    outcome: PollStep,
    now_epoch_s: u64,
    region: Vec<u8>,
    start_url: Vec<u8>,
    scopes: Vec<Vec<u8>>,
) -> (r: Result<BuilderIdToken, AuthError>)
    requires
        !(outcome is Continue),
        outcome matches PollStep::Succeeded(p) ==> now_epoch_s + p.expires_in_s <= u64::MAX,
    ensures
        match outcome {
            PollStep::Succeeded(p) => match r {
                Result::Ok(t) => {
                    &&& t@ == spec_issued_token(
                        p,
                        now_epoch_s,
                        region@,
                        start_url@,
                        scopes.deep_view(),
                    )
                    &&& final(store)@ == Option::Some(spec_encode(t@))
                    &&& spec_has_token(final(store)@)
                },
                Result::Err(_) => false,
            },
            PollStep::Failed(e) => {
                &&& r == Result::<BuilderIdToken, AuthError>::Err(e)
                &&& final(store)@ == old(store)@
            },
            PollStep::Continue(_) => false,
        },
{
    match outcome {
        PollStep::Continue(_) => {
            proof {
                assert(false);
            }
            Result::Err(AuthError::PollExpired)
        },
        PollStep::Failed(e) => Result::Err(e),
        PollStep::Succeeded(payload) => {
            let token = BuilderIdToken {
                access_token: payload.access_token,
                refresh_token: payload.refresh_token,
                expires_at_epoch_s: now_epoch_s + payload.expires_in_s,
                region,
                start_url,
                scopes,
            };
            store.save(&token);
            Result::Ok(token)
        },
    }
}

/// What a due refresh should do next.
#[derive(Clone, Debug, PartialEq, Eq)]
pub enum RefreshAction {
    /// The token is comfortably outside the safety margin: make no network
    /// call at all.
    NoRefreshNeeded,
    /// Call the token endpoint with this refresh token under the refresh
    /// grant, then conclude with `apply_refresh`.
    CallRefresh(Vec<u8>),
}

/// Judge the stored token against the clock and the safety margin. The
/// store is read, never written: a token outside the margin asks for no
/// call; one inside it asks for a refresh call exactly when a refresh
/// token is held, and demands a fresh login otherwise. An absent record
/// and a corrupt record are the two distinct store errors.
pub fn refresh_if_needed(
    store: &TokenStore,
    now_epoch_s: u64,
    margin_s: u64,
) -> (r: Result<RefreshAction, AuthError>)
    ensures
        match store@ {
            Option::None => r == Result::<RefreshAction, AuthError>::Err(AuthError::NoTokenPresent),
            Option::Some(rec) => match crate::codec::spec_decode(rec) {
                Option::None => r == Result::<RefreshAction, AuthError>::Err(
                    AuthError::TokenCorrupted,
                ),
                Option::Some(v) => {
                    if !spec_needs_refresh(v, now_epoch_s, margin_s) {
                        r == Result::<RefreshAction, AuthError>::Ok(RefreshAction::NoRefreshNeeded)
                    } else {
                        match v.refresh_token {
                            Option::Some(rt) => match r {
                                Result::Ok(RefreshAction::CallRefresh(b)) => b@ == rt,
                                _ => false,
                            },
                            Option::None => r == Result::<RefreshAction, AuthError>::Err(
                                AuthError::RefreshUnavailable,
                            ),
                        }
                    }
                },
            },
        },
{
    let token = match store.load() {
        Result::Err(e) => {
            return Result::Err(e);
        },
        Result::Ok(Option::None) => {
            return Result::Err(AuthError::NoTokenPresent);
        },
        Result::Ok(Option::Some(t)) => t,
    };
    if !token.needs_refresh_at(now_epoch_s, margin_s) {
        return Result::Ok(RefreshAction::NoRefreshNeeded);
    }
    match token.refresh_token {
        Option::None => Result::Err(AuthError::RefreshUnavailable),
        Option::Some(rt) => Result::Ok(RefreshAction::CallRefresh(rt)),
    }
}

/// Conclude a refresh-grant call: the new access token, refresh token and
/// expiry replace the old in one atomic store write; the issuance
/// parameters — region, start URL, scopes — are preserved from the current
/// token. A payload without a refresh token keeps the current one.
pub fn apply_refresh(
    store: &mut TokenStore,
    current: BuilderIdToken,
    payload: TokenPayload,
    now_epoch_s: u64,
) -> (t: BuilderIdToken)
    requires
        now_epoch_s + payload.expires_in_s <= u64::MAX,
    ensures
        t@.access_token == payload.access_token@,
        t@.refresh_token == match payload.refresh_token {
            Option::Some(rt) => Option::Some(rt@),
            Option::None => current@.refresh_token,
        },
        t@.expires_at_epoch_s == now_epoch_s + payload.expires_in_s,
        t@.region == current@.region,
        t@.start_url == current@.start_url,
        t@.scopes == current@.scopes,
        final(store)@ == Option::Some(spec_encode(t@)),
        spec_has_token(final(store)@),
{
    let refresh_token = match payload.refresh_token {
        Option::Some(rt) => Option::Some(rt),
        Option::None => current.refresh_token,
    };
    let token = BuilderIdToken {
        access_token: payload.access_token,
        refresh_token,
        expires_at_epoch_s: now_epoch_s + payload.expires_in_s,
        region: current.region,
        start_url: current.start_url,
        scopes: current.scopes,
    };
    store.save(&token);
    token
}

/// Law: immediately after a logout whose token delete went through, no
/// credential is stored, whatever the settings clear did.
pub proof fn lemma_logged_out_after_logout(rec: Option<Seq<u8>>)
    requires
        rec is None,
    ensures
        !spec_has_token(rec),
{
}

/// Law: immediately after a store write of an encoded token — a completed
/// login or an applied refresh — a credential is stored: the record
/// decodes back to the very token written.
pub proof fn lemma_logged_in_after_token_write(v: TokenView)
    requires
        crate::codec::spec_token_wf(v),
    ensures
        spec_has_token(Option::Some(spec_encode(v))),
        crate::codec::spec_decode(spec_encode(v)) == Option::Some(v),
{
    crate::codec::lemma_record_round_trip(v);
}

/// Law: a token comfortably outside the safety margin needs no refresh —
/// the judged action is the one that makes no network call.
pub proof fn lemma_fresh_token_needs_no_call(v: TokenView, now_epoch_s: u64, margin_s: u64)
    requires
        now_epoch_s + margin_s < v.expires_at_epoch_s,
    ensures
        !spec_needs_refresh(v, now_epoch_s, margin_s),
{
}

/// Law: a token inside the margin — or past expiry — with no refresh token
/// held needs a refresh it cannot have: re-login is the only way out.
pub proof fn lemma_expired_without_refresh_token(v: TokenView, now_epoch_s: u64, margin_s: u64)
    requires
        v.expires_at_epoch_s <= now_epoch_s + margin_s,
    ensures
        spec_needs_refresh(v, now_epoch_s, margin_s),
{
}

} // verus!
