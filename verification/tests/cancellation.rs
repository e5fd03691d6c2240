use aes_gcm::aead::Aead;
use aes_gcm::{Aes256Gcm, KeyInit, Nonce};
use hoppscotch_agent::controller::{cancel_request, run_request_finish, AppState, RunOutcome};
use hoppscotch_agent::error::AppError;
use hoppscotch_agent::store::Registration;
use tokio_util::sync::CancellationToken;

fn state_with_credential(auth_key: &str, secret: [u8; 32]) -> AppState {
    let mut state = AppState::new();
    state.registrations.update_registrations(
        auth_key.to_string(),
        Registration {
            registered_at: "2024-01-01T00:00:00+00:00".to_string(),
            shared_secret: secret.to_vec(),
        },
    );
    state
}

#[test]
fn cancellation_is_isolated_per_request() {
    let mut state = state_with_credential("bearer", [1u8; 32]);
    let tokens: Vec<CancellationToken> = (0..3).map(|_| CancellationToken::new()).collect();
    for (i, token) in tokens.iter().enumerate() {
        state.cancellation_tokens.register(i + 1, token.clone());
    }

    let r = cancel_request(&mut state, "bearer", 2).expect("request 2 is in flight");
    assert_eq!(r, "Request cancelled successfully");

    // Only the cancelled request's signal fired; the others still run.
    assert!(!tokens[0].is_cancelled());
    assert!(tokens[1].is_cancelled());
    assert!(!tokens[2].is_cancelled());
    assert!(state.cancellation_tokens.contains(1));
    assert!(!state.cancellation_tokens.contains(2));
    assert!(state.cancellation_tokens.contains(3));
}

#[test]
fn cancellation_is_idempotent() {
    let mut state = state_with_credential("bearer", [1u8; 32]);

    // Cancelling an unknown request id is not found.
    let first = cancel_request(&mut state, "bearer", 9);
    assert_eq!(first.unwrap_err(), AppError::RequestNotFound);

    // Cancelling an already-cancelled id is not found again, not a crash.
    state.cancellation_tokens.register(9, CancellationToken::new());
    assert!(cancel_request(&mut state, "bearer", 9).is_ok());
    let again = cancel_request(&mut state, "bearer", 9);
    assert_eq!(again.unwrap_err(), AppError::RequestNotFound);
}

#[test]
fn cancellation_requires_a_valid_credential() {
    let mut state = state_with_credential("bearer", [1u8; 32]);
    state.cancellation_tokens.register(1, CancellationToken::new());
    let r = cancel_request(&mut state, "intruder", 1);
    assert_eq!(r.unwrap_err(), AppError::Unauthorized);
    // The in-flight request was left untouched.
    assert!(state.cancellation_tokens.contains(1));
}

#[test]
fn registry_replaces_a_reused_request_id() {
    let mut state = state_with_credential("bearer", [1u8; 32]);
    let first = CancellationToken::new();
    let second = CancellationToken::new();
    state.cancellation_tokens.register(4, first.clone());
    state.cancellation_tokens.register(4, second.clone());
    cancel_request(&mut state, "bearer", 4).expect("request 4 is in flight");
    assert!(!first.is_cancelled());
    assert!(second.is_cancelled());
}

#[test]
fn finish_maps_each_race_outcome() {
    let secret = [5u8; 32];
    let mut state = state_with_credential("bearer", secret);

    state.cancellation_tokens.register(1, CancellationToken::new());
    let cancelled = run_request_finish(&mut state, "bearer", 1, RunOutcome::Cancelled);
    assert_eq!(cancelled.unwrap_err(), AppError::RequestCancelled);
    assert!(!state.cancellation_tokens.contains(1));

    state.cancellation_tokens.register(2, CancellationToken::new());
    let broken = run_request_finish(&mut state, "bearer", 2, RunOutcome::ExecutorFailed);
    assert_eq!(broken.unwrap_err(), AppError::InternalServerError);

    state.cancellation_tokens.register(3, CancellationToken::new());
    let failed = run_request_finish(
        &mut state,
        "bearer",
        3,
        RunOutcome::Failed(AppError::InternalServerError),
    );
    assert_eq!(failed.unwrap_err(), AppError::InternalServerError);

    // A completed command is encrypted under the caller's shared secret.
    state.cancellation_tokens.register(4, CancellationToken::new());
    let body = b"{\"status\":200}";
    let done = run_request_finish(&mut state, "bearer", 4, RunOutcome::Completed(body.to_vec()))
        .expect("completed command yields a response");
    let cipher = Aes256Gcm::new_from_slice(&secret).unwrap();
    let plaintext = cipher
        .decrypt(Nonce::from_slice(&done.nonce), done.ciphertext.as_slice())
        .unwrap();
    assert_eq!(plaintext, body);
    assert!(!state.cancellation_tokens.contains(4));

    // A completed command from an unknown credential yields no response.
    state.cancellation_tokens.register(5, CancellationToken::new());
    let masked = run_request_finish(&mut state, "intruder", 5, RunOutcome::Completed(b"x".to_vec()));
    assert_eq!(masked.unwrap_err(), AppError::Unauthorized);
    // The registry entry is removed exactly once regardless of outcome.
    assert!(!state.cancellation_tokens.contains(5));
}
