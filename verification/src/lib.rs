//! Device-authorization-grant ("Builder ID") sign-in for a command-line tool:
//! the authentication state machine and the lifecycle of the resulting
//! credential — issuance, persistence, refresh, and revocation.
//!
//! The library holds the verified core: PKCE generation and binding, the
//! token-poller state machine, the token record codec and store, and the
//! lifecycle rules. Network and database work is driven by the caller, which
//! feeds the outcomes of those calls back into the state machine here.

pub mod codec;
pub mod device;
pub mod error;
pub mod lifecycle;
pub mod pkce;
pub mod poller;
pub mod registrar;
pub mod store;
pub mod token;
