use builder_id_auth::error::AuthError;
use builder_id_auth::poller::PollResponse;
use builder_id_auth::poller::PollState;
use builder_id_auth::poller::PollStep;
use builder_id_auth::poller::SLOW_DOWN_STEP_S;
use builder_id_auth::poller::TokenPayload;
use builder_id_auth::poller::step;

fn payload() -> TokenPayload {
    TokenPayload {
        access_token: b"access".to_vec(),
        refresh_token: Some(b"refresh".to_vec()),
        expires_in_s: 3600,
    }
}

#[test]
fn scripted_poll_raises_interval_once_and_succeeds() {
    // The scripted exchange: pending, pending, slow down, pending, issued.
    let responses = vec![
        PollResponse::Pending,
        PollResponse::Pending,
        PollResponse::SlowDown,
        PollResponse::Pending,
        PollResponse::Issued(payload()),
    ];
    let mut st = PollState { interval_s: 5, deadline_epoch_s: 1_000 };
    let mut now: u64 = 100;
    let mut raises = 0;
    let mut outcome = None;
    for resp in responses {
        now += st.interval_s;
        match step(st, now, resp) {
            PollStep::Continue(next) => {
                if next.interval_s > st.interval_s {
                    raises += 1;
                }
                st = next;
            }
            other => {
                outcome = Some(other);
                break;
            }
        }
    }
    // The interval rose exactly once, by the fixed step, and the attempt
    // ended in success with the issued payload.
    assert_eq!(raises, 1);
    assert_eq!(st.interval_s, 5 + SLOW_DOWN_STEP_S);
    assert_eq!(outcome, Some(PollStep::Succeeded(payload())));
}

#[test]
fn pending_keeps_the_state_within_the_deadline() {
    let st = PollState { interval_s: 5, deadline_epoch_s: 1_000 };
    assert_eq!(step(st, 999, PollResponse::Pending), PollStep::Continue(st));
}

#[test]
fn pending_past_the_deadline_expires_the_attempt() {
    let st = PollState { interval_s: 5, deadline_epoch_s: 1_000 };
    assert_eq!(
        step(st, 1_000, PollResponse::Pending),
        PollStep::Failed(AuthError::PollExpired)
    );
    assert_eq!(
        step(st, 2_000, PollResponse::SlowDown),
        PollStep::Failed(AuthError::PollExpired)
    );
}

#[test]
fn expired_token_response_is_terminal_whenever_it_comes() {
    let st = PollState { interval_s: 5, deadline_epoch_s: 1_000 };
    assert_eq!(
        step(st, 10, PollResponse::ExpiredToken),
        PollStep::Failed(AuthError::PollExpired)
    );
}

#[test]
fn denial_is_distinct_from_expiry() {
    let st = PollState { interval_s: 5, deadline_epoch_s: 1_000 };
    assert_eq!(
        step(st, 10, PollResponse::AccessDenied),
        PollStep::Failed(AuthError::PollDenied)
    );
}

#[test]
fn transport_errors_carry_their_cause() {
    let st = PollState { interval_s: 5, deadline_epoch_s: 1_000 };
    assert_eq!(
        step(st, 10, PollResponse::TransportError("connection reset".to_string())),
        PollStep::Failed(AuthError::PollTransportError("connection reset".to_string()))
    );
}

#[test]
fn issuance_wins_even_at_the_deadline() {
    let st = PollState { interval_s: 5, deadline_epoch_s: 1_000 };
    assert_eq!(
        step(st, 5_000, PollResponse::Issued(payload())),
        PollStep::Succeeded(payload())
    );
}
