//! The error taxonomy of the authentication core.
//!
//! Every failure of `login`, `refresh_if_needed` or `logout` is one of these
//! kinds, so that a UI layer can message each outcome distinctly (a denied
//! authorization is not a timeout). Kinds that wrap an outside failure carry
//! an opaque, human-readable cause.

use vstd::prelude::*;

verus! {

/// One tagged kind per way the authentication core can fail.
#[derive(Clone, Debug, PartialEq, Eq)]
pub enum AuthError {
    /// The client-registration call to the identity provider failed.
    RegistrationFailed(String),
    /// The device-authorization call to the identity provider failed.
    DeviceAuthorizationFailed(String),
    /// A token-endpoint poll failed with a transport or provider error that
    /// is none of the protocol outcomes below.
    PollTransportError(String),
    /// The device code expired before the user completed authorization, or
    /// the polling deadline passed; the whole login attempt must be retried.
    PollExpired,
    /// The user explicitly denied the authorization request.
    PollDenied,
    /// The PKCE verifier at token-exchange time is not the one whose
    /// challenge was sent with the device-authorization request. Fatal to
    /// the attempt: a possible interception, never retried silently.
    StateOrPkceMismatch,
    /// No credential is stored.
    NoTokenPresent,
    /// A stored credential record exists but cannot be decoded.
    TokenCorrupted,
    /// The stored credential needs a refresh but holds no refresh token;
    /// the user must log in again.
    RefreshUnavailable,
    /// The persistence layer failed to store or delete the credential.
    PersistenceFailure(String),
    /// The settings collaborator failed to clear the profile override.
    /// Non-fatal to logout: surfaced as a warning, never as the result.
    SettingsClearFailure(String),
}

impl AuthError {
    /// True for the kinds on which a fresh login attempt can help, false for
    /// the fatal protocol violation.
    pub fn is_retryable_by_new_attempt(&self) -> (r: bool)
        ensures
            r == !(self is StateOrPkceMismatch),
    {
        !matches!(self, AuthError::StateOrPkceMismatch)
    }
}

} // verus!
