//! Pairing coordinator and command paths over the process-wide state: the
//! OTP pairing handshake, the authenticated command pipeline, and
//! cancellation.
//!
//! The blocking execution of a command and the race against its
//! cancellation signal live outside this library; the decisions around
//! them — what to register, what each race outcome yields, and that the
//! registry entry is removed exactly once — are taken here.
use vstd::prelude::*;
use vstd::string::StringExecFns;

use rand::Rng;
use tokio_util::sync::CancellationToken;
use x25519_dalek::{EphemeralSecret, PublicKey};

use crate::codec;
use crate::error::AppError;
use crate::hex;
use crate::model::AuthKeyResponse;
use crate::otp;
use crate::registry::CancellationRegistry;
use crate::store::{Registration, RegistrationView, SessionStore, command_plaintext};

verus! {

/// The pending slot after a pairing initiation with the given code: an
/// occupied slot is never overwritten.
pub open spec fn pending_after_initiate(p: Option<Seq<char>>, code: Seq<char>) -> Option<
    Seq<char>,
> {
    if p is Some {
        p
    } else {
        Some(code)
    }
}

/// Whether a pairing initiation wins the slot.
pub open spec fn initiate_accepted(p: Option<Seq<char>>) -> bool {
    p is None
}

/// Whether a presented code validates against the pending slot.
pub open spec fn validate_ok(p: Option<Seq<char>>, code: Seq<char>) -> bool {
    p == Some(code)
}

/// The pending slot after a validation attempt: consumed exactly by a
/// successful validation, untouched by a failed one.
pub open spec fn pending_after_validate(p: Option<Seq<char>>, code: Seq<char>) -> Option<
    Seq<char>,
> {
    if validate_ok(p, code) {
        None
    } else {
        p
    }
}

/// Whether a client public key encoding decodes to exactly 32 bytes.
pub open spec fn client_key_ok(pk_b16: Seq<char>) -> bool {
    match hex::hex_decoding(pk_b16) {
        Some(bytes) => bytes.len() == 32,
        None => false,
    }
}

/// Process-wide service state, constructed once at startup and shared by
/// reference into every request-handling path.
pub struct AppState {
    /// The single pending-pairing slot: at most one OTP exists at a time.
    pub active_registration_code: Option<String>,
    /// The session table of established pairings.
    pub registrations: SessionStore,
    /// Cancellation signals of in-flight commands.
    pub cancellation_tokens: CancellationRegistry,
}

impl AppState {
    /// The pending OTP, as a mathematical value.
    pub open spec fn pending_code(&self) -> Option<Seq<char>> {
        match self.active_registration_code {
            Some(code) => Some(code@),
            None => None,
        }
    }

    /// The session table is well formed.
    pub open spec fn wf(&self) -> bool {
        self.registrations.wf()
    }

    /// Fresh state: no pending pairing, no registrations, no in-flight
    /// commands.
    pub fn new() -> (r: AppState)
        ensures
            r.pending_code() is None,
            r.registrations@ == Map::<Seq<char>, RegistrationView>::empty(),
            r.cancellation_tokens@ == Map::<usize, CancellationToken>::empty(),
            r.wf(),
    {
        AppState {
            active_registration_code: None,
            registrations: SessionStore::new(),
            cancellation_tokens: CancellationRegistry::new(),
        }
    }
}

/// Outcome of a pairing initiation.
pub enum PairingInitiation {
    /// A pairing was already pending; nothing was changed.
    AlreadyInProgress,
    /// The slot was empty; this OTP is now stored and must be shown to the
    /// user through the notifier.
    Stored { otp: String },
}

impl PairingInitiation {
    /// The message reported to the caller for this outcome.
    pub fn message(&self) -> (r: String)
        ensures
            (match self {
                PairingInitiation::AlreadyInProgress => r@
                    == "There is already an existing registration happening"@,
                PairingInitiation::Stored { .. } => r@ == "Registration received and stored"@,
            }),
    {
        match self {
            PairingInitiation::AlreadyInProgress => String::from_str(
                "There is already an existing registration happening",
            ),
            PairingInitiation::Stored { .. } => String::from_str("Registration received and stored"),
        }
    }
}

/// Relies on `rand::thread_rng` and `Rng::gen_range`: a value uniform in
/// `[0, 1_000_000)`; nothing further is assumed of it.
#[verifier::external_body]
fn random_otp_value() -> (r: u32)
    ensures
        r < 1000000,
{
    rand::thread_rng().gen_range(0..1_000_000)
}

/// Relies on `Uuid::new_v4` and its `Display` form (uuid): a fresh random
/// v4 UUID rendered in the 36-character hyphenated form; nothing further
/// is assumed of its value.
#[verifier::external_body]
fn fresh_auth_key() -> (r: String)
    ensures
        r@.len() == 36,
{
    uuid::Uuid::new_v4().to_string()
}

/// Relies on `Utc::now` and `DateTime::to_rfc3339` (chrono): the current
/// UTC time rendered as RFC 3339; nothing is assumed of its value.
#[verifier::external_body]
fn now_rfc3339() -> (r: String) {
    chrono::Utc::now().to_rfc3339()
}

/// Relies on x25519-dalek: `EphemeralSecret::random` draws a fresh
/// ephemeral scalar, `PublicKey::from` derives the matching public key,
/// and `diffie_hellman` computes the X25519 shared secret with the
/// client's key. Returns the agent public key and the shared secret, 32
/// bytes each; nothing is assumed of their contents, as the scalar is
/// random.
#[verifier::external_body]
fn ecdh_handshake(client_public_key: &[u8]) -> (r: (Vec<u8>, Vec<u8>))
    requires
        client_public_key@.len() == 32,
    ensures
        r.0@.len() == 32,
        r.1@.len() == 32,
{
    let mut pk = [0u8; 32];
    pk.copy_from_slice(client_public_key);
    let agent_secret = EphemeralSecret::random();
    let agent_public = PublicKey::from(&agent_secret);
    let shared = agent_secret.diffie_hellman(&PublicKey::from(pk));
    (agent_public.as_bytes().to_vec(), shared.as_bytes().to_vec())
}

/// Initiates a pairing with a given OTP value: one atomic check-and-set on
/// the pending slot. An occupied slot is reported, never overwritten.
pub fn initiate_pairing(state: &mut AppState, otp_value: u32) -> (r: PairingInitiation)
    requires
        otp_value < 1000000,
    ensures
        final(state).pending_code() == pending_after_initiate(
            old(state).pending_code(),
            otp::otp_string_of(otp_value),
        ),
        final(state).registrations == old(state).registrations,
        final(state).cancellation_tokens == old(state).cancellation_tokens,
        (match r {
            PairingInitiation::AlreadyInProgress => !initiate_accepted(old(state).pending_code()),
            PairingInitiation::Stored { otp } => initiate_accepted(old(state).pending_code())
                && otp@ == otp::otp_string_of(otp_value),
        }),
{
    if state.active_registration_code.is_some() {
        PairingInitiation::AlreadyInProgress
    } else {
        let otp = otp::format_otp(otp_value);
        state.active_registration_code = Some(otp.clone());
        PairingInitiation::Stored { otp }
    }
}

/// Initiates a pairing with a freshly drawn six-digit OTP.
pub fn receive_registration(state: &mut AppState) -> (r: PairingInitiation)
    ensures
        final(state).registrations == old(state).registrations,
        final(state).cancellation_tokens == old(state).cancellation_tokens,
        (match r {
            PairingInitiation::AlreadyInProgress => !initiate_accepted(old(state).pending_code())
                && final(state).pending_code() == old(state).pending_code(),
            PairingInitiation::Stored { otp } => initiate_accepted(old(state).pending_code())
                && otp@.len() == 6 && final(state).pending_code() == Some(otp@),
        }),
{
    let otp_value = random_otp_value();
    initiate_pairing(state, otp_value)
}

/// Validates a presented OTP against the pending slot, consuming the slot
/// exactly on success so the same code can never be satisfied twice.
pub fn validate_registration(state: &mut AppState, registration: &str) -> (r: bool)
    ensures
        r == validate_ok(old(state).pending_code(), registration@),
        final(state).pending_code() == pending_after_validate(
            old(state).pending_code(),
            registration@,
        ),
        final(state).registrations == old(state).registrations,
        final(state).cancellation_tokens == old(state).cancellation_tokens,
{
    let matches_pending = match &state.active_registration_code {
        Some(code) => {
            let provided = registration.to_owned();
            *code == provided
        },
        None => false,
    };
    if matches_pending {
        state.active_registration_code = None;
        true
    } else {
        false
    }
}

/// Confirms a pairing: validates the OTP, decodes the client's public key
/// (exactly 32 hex-encoded bytes), runs the X25519 handshake, and commits
/// a fresh registration to the session table in one transaction.
pub fn verify_registration(
    state: &mut AppState,
    registration: &str,
    client_public_key_b16: &str,
) -> (r: Result<AuthKeyResponse, AppError>)
    requires
        old(state).wf(),
    ensures
        final(state).wf(),
        final(state).cancellation_tokens == old(state).cancellation_tokens,
        final(state).pending_code() == pending_after_validate(
            old(state).pending_code(),
            registration@,
        ),
        !validate_ok(old(state).pending_code(), registration@) ==> r == Err::<
            AuthKeyResponse,
            AppError,
        >(AppError::InvalidRegistration) && final(state).registrations == old(state).registrations,
        validate_ok(old(state).pending_code(), registration@) && !client_key_ok(
            client_public_key_b16@,
        ) ==> r == Err::<AuthKeyResponse, AppError>(AppError::InvalidClientPublicKey)
            && final(state).registrations == old(state).registrations,
        validate_ok(old(state).pending_code(), registration@) && client_key_ok(
            client_public_key_b16@,
        ) ==> (match r {
            Ok(resp) => {
                &&& resp.auth_key@.len() == 36
                &&& resp.agent_public_key_b16@.len() == 64
                &&& (exists|pk: Seq<u8>|
                    pk.len() == 32 && resp.agent_public_key_b16@ == hex::hex_encoding(pk))
                &&& final(state).registrations@.contains_key(resp.auth_key@)
                &&& final(state).registrations@[resp.auth_key@].registered_at == resp.created_at@
                &&& final(state).registrations@[resp.auth_key@].shared_secret.len() == 32
                &&& final(state).registrations@ == old(state).registrations@.insert(
                    resp.auth_key@,
                    final(state).registrations@[resp.auth_key@],
                )
            },
            Err(_) => false,
        }),
{
    if !validate_registration(state, registration) {
        return Err(AppError::InvalidRegistration);
    }
    let key_bytes = match hex::decode(client_public_key_b16) {
        Some(bytes) => bytes,
        None => {
            return Err(AppError::InvalidClientPublicKey);
        },
    };
    if key_bytes.len() != 32 {
        return Err(AppError::InvalidClientPublicKey);
    }
    let (agent_public, shared_secret) = ecdh_handshake(key_bytes.as_slice());
    let auth_key = fresh_auth_key();
    let created_at = now_rfc3339();
    let agent_public_key_b16 = hex::encode_lower(agent_public.as_slice());
    let entry = Registration { registered_at: created_at.clone(), shared_secret };
    state.registrations.update_registrations(auth_key.clone(), entry);
    Ok(AuthKeyResponse { auth_key, created_at, agent_public_key_b16 })
}

/// Proves to a registered client that its credential still holds: the
/// fixed payload `true`, encrypted under the shared secret of the
/// credential, which only a completed pairing can decrypt.
pub fn registered_handshake(state: &AppState, auth_key: &str) -> (r: Result<
    codec::EncryptedPayload,
    AppError,
>)
    requires
        state.wf(),
    ensures
        (match r {
            Ok(p) => {
                &&& state.registrations@.contains_key(auth_key@)
                &&& p.nonce@.len() == 12
                &&& p.ciphertext@ == codec::sealed(
                    state.registrations@[auth_key@].shared_secret,
                    p.nonce@,
                    json_true_bytes(),
                )
                &&& codec::opened(
                    state.registrations@[auth_key@].shared_secret,
                    p.nonce@,
                    p.ciphertext@,
                ) == Some(json_true_bytes())
            },
            Err(e) => e == AppError::Unauthorized && !state.registrations@.contains_key(auth_key@),
        }),
{
    match state.registrations.get_registration_info(auth_key) {
        Some(reg) => {
            let payload = json_true();
            Ok(codec::encrypt(reg.shared_secret.as_slice(), payload.as_slice()))
        },
        None => Err(AppError::Unauthorized),
    }
}

/// The JSON encoding of the value `true`, as bytes.
pub open spec fn json_true_bytes() -> Seq<u8> {
    seq![116u8, 114u8, 117u8, 101u8]
}

/// Builds the JSON encoding of `true`.
fn json_true() -> (r: Vec<u8>)
    ensures
        r@ == json_true_bytes(),
{
    let mut v: Vec<u8> = Vec::new();
    v.push(116);
    v.push(114);
    v.push(117);
    v.push(101);
    proof {
        assert(v@ =~= json_true_bytes());
    }
    v
}

/// Authenticates and decrypts an inbound command against the session
/// table; every failure collapses to `None`.
pub fn run_request_begin(state: &AppState, auth_key: &str, nonce_b16: &str, body: &[u8]) -> (r:
    Option<Vec<u8>>)
    requires
        state.wf(),
    ensures
        hex::opt_bytes_view(r) == command_plaintext(
            state.registrations@,
            auth_key@,
            nonce_b16@,
            body@,
        ),
{
    state.registrations.validate_access_and_get_data(auth_key, nonce_b16, body)
}

/// What the race between the blocking execution and the cancellation
/// signal resolved to.
pub enum RunOutcome {
    /// The execution completed; its serialized successful response.
    Completed(Vec<u8>),
    /// The execution completed with an error of its own.
    Failed(AppError),
    /// The blocking execution context failed to run the task at all.
    ExecutorFailed,
    /// The cancellation signal won the race.
    Cancelled,
}

/// Settles a finished command: removes its cancellation entry exactly
/// once, whatever the race outcome, and encrypts a successful response
/// under the caller's shared secret.
pub fn run_request_finish(
    state: &mut AppState,
    auth_key: &str,
    req_id: usize,
    outcome: RunOutcome,
) -> (r: Result<codec::EncryptedPayload, AppError>)
    requires
        old(state).wf(),
        (match outcome {
            RunOutcome::Completed(body) => body@.len() <= 0xFFFF_FFFF,
            _ => true,
        }),
    ensures
        final(state).wf(),
        final(state).pending_code() == old(state).pending_code(),
        final(state).registrations == old(state).registrations,
        final(state).cancellation_tokens@ == old(state).cancellation_tokens@.remove(req_id),
        (match outcome {
            RunOutcome::Completed(body) => {
                if old(state).registrations@.contains_key(auth_key@) {
                    match r {
                        Ok(p) => {
                            &&& p.nonce@.len() == 12
                            &&& p.ciphertext@ == codec::sealed(
                                old(state).registrations@[auth_key@].shared_secret,
                                p.nonce@,
                                body@,
                            )
                            &&& codec::opened(
                                old(state).registrations@[auth_key@].shared_secret,
                                p.nonce@,
                                p.ciphertext@,
                            ) == Some(body@)
                        },
                        Err(_) => false,
                    }
                } else {
                    r == Err::<codec::EncryptedPayload, AppError>(AppError::Unauthorized)
                }
            },
            RunOutcome::Failed(e) => r == Err::<codec::EncryptedPayload, AppError>(e),
            RunOutcome::ExecutorFailed => r == Err::<codec::EncryptedPayload, AppError>(
                AppError::InternalServerError,
            ),
            RunOutcome::Cancelled => r == Err::<codec::EncryptedPayload, AppError>(
                AppError::RequestCancelled,
            ),
        }),
{
    let _removed = state.cancellation_tokens.remove(req_id);
    match outcome {
        RunOutcome::Completed(body) => {
            match state.registrations.get_registration_info(auth_key) {
                Some(reg) => Ok(codec::encrypt(reg.shared_secret.as_slice(), body.as_slice())),
                None => Err(AppError::Unauthorized),
            }
        },
        RunOutcome::Failed(e) => Err(e),
        RunOutcome::ExecutorFailed => Err(AppError::InternalServerError),
        RunOutcome::Cancelled => Err(AppError::RequestCancelled),
    }
}

/// Cancels an in-flight command: requires a valid bearer credential, fires
/// and removes the matching signal, and reports an unknown or
/// already-cancelled identifier as not found.
pub fn cancel_request(state: &mut AppState, auth_key: &str, req_id: usize) -> (r: Result<
    String,
    AppError,
>)
    requires
        old(state).wf(),
    ensures
        final(state).wf(),
        final(state).pending_code() == old(state).pending_code(),
        final(state).registrations == old(state).registrations,
        !old(state).registrations@.contains_key(auth_key@) ==> r == Err::<String, AppError>(
            AppError::Unauthorized,
        ) && final(state).cancellation_tokens == old(state).cancellation_tokens,
        old(state).registrations@.contains_key(auth_key@) ==> final(state).cancellation_tokens@
            == old(state).cancellation_tokens@.remove(req_id),
        old(state).registrations@.contains_key(auth_key@)
            && old(state).cancellation_tokens@.contains_key(req_id) ==> (match r {
            Ok(m) => m@ == "Request cancelled successfully"@,
            Err(_) => false,
        }),
        old(state).registrations@.contains_key(auth_key@)
            && !old(state).cancellation_tokens@.contains_key(req_id) ==> r == Err::<String, AppError>(
            AppError::RequestNotFound,
        ),
{
    if !state.registrations.validate_access(auth_key) {
        return Err(AppError::Unauthorized);
    }
    if state.cancellation_tokens.cancel(req_id) {
        Ok(String::from_str("Request cancelled successfully"))
    } else {
        Err(AppError::RequestNotFound)
    }
}

/// Pairing idempotence: while a pairing is pending, a later initiation
/// leaves the stored code unchanged and is told a pairing is already in
/// progress, and the original code still validates afterwards.
pub proof fn lemma_pairing_idempotence(
    p: Option<Seq<char>>,
    original: Seq<char>,
    later: Seq<char>,
)
    requires
        p == Some(original),
    ensures
        pending_after_initiate(p, later) == p,
        !initiate_accepted(p),
        validate_ok(pending_after_initiate(p, later), original),
{
}

/// A consumed pairing slot can never validate again: after a successful
/// validation, every further attempt fails, whatever code it presents.
pub proof fn lemma_validation_consumes_slot(p: Option<Seq<char>>, code: Seq<char>, again: Seq<char>)
    requires
        validate_ok(p, code),
    ensures
        !validate_ok(pending_after_validate(p, code), again),
{
}

} // verus!
