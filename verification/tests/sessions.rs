use aes_gcm::aead::Aead;
use aes_gcm::{Aes256Gcm, KeyInit, Nonce};
use hoppscotch_agent::controller::{
    initiate_pairing, registered_handshake, run_request_begin, verify_registration, AppState,
};
use hoppscotch_agent::error::AppError;
use hoppscotch_agent::hex::{decode, encode_lower};
use x25519_dalek::{PublicKey, StaticSecret};

/// Pairs a simulated client with the agent and returns the bearer
/// credential together with the shared secret the client computed on its
/// own side.
fn pair(state: &mut AppState) -> (String, [u8; 32]) {
    let client_secret = StaticSecret::random();
    let client_public = PublicKey::from(&client_secret);

    initiate_pairing(state, 42918);
    let response = verify_registration(state, "042918", &encode_lower(client_public.as_bytes()))
        .expect("pairing must succeed");

    let agent_public_bytes = decode(&response.agent_public_key_b16).expect("agent key is hex");
    let mut agent_public = [0u8; 32];
    agent_public.copy_from_slice(&agent_public_bytes);
    let shared = client_secret.diffie_hellman(&PublicKey::from(agent_public));
    (response.auth_key, shared.to_bytes())
}

#[test]
fn ecdh_shared_secrets_agree() {
    let mut state = AppState::new();
    let (auth_key, client_side_secret) = pair(&mut state);

    // The secret the agent stored equals the one the client derived from
    // its own private key and the agent's returned public key.
    let registration = state
        .registrations
        .get_registration_info(&auth_key)
        .expect("registration exists");
    assert_eq!(registration.shared_secret, client_side_secret.to_vec());
}

#[test]
fn registered_handshake_encrypts_true() {
    let mut state = AppState::new();
    let (auth_key, shared) = pair(&mut state);

    let payload = registered_handshake(&state, &auth_key).expect("credential is valid");
    let cipher = Aes256Gcm::new_from_slice(&shared).unwrap();
    let plaintext = cipher
        .decrypt(Nonce::from_slice(&payload.nonce), payload.ciphertext.as_slice())
        .expect("client can decrypt with its own shared secret");
    assert_eq!(plaintext, b"true");
}

#[test]
fn registered_handshake_rejects_unknown_credential() {
    let state = AppState::new();
    let r = registered_handshake(&state, "no-such-credential");
    assert_eq!(r.unwrap_err(), AppError::Unauthorized);
}

#[test]
fn command_pipeline_decrypts_valid_traffic_only() {
    let mut state = AppState::new();
    let (auth_key, shared) = pair(&mut state);

    // The client seals a command under the shared secret and a nonce of
    // its choosing, sent hex-encoded in a transport header.
    let command = b"{\"req_id\":5,\"method\":\"GET\",\"url\":\"http://localhost/\"}";
    let nonce = [3u8; 12];
    let cipher = Aes256Gcm::new_from_slice(&shared).unwrap();
    let body = cipher.encrypt(Nonce::from_slice(&nonce), command.as_slice()).unwrap();
    let nonce_hex = encode_lower(&nonce);

    let opened = run_request_begin(&state, &auth_key, &nonce_hex, &body);
    assert_eq!(opened.as_deref(), Some(command.as_slice()));

    // An unknown credential, a wrong nonce, a malformed nonce and a
    // tampered body are all rejected the same way.
    assert_eq!(run_request_begin(&state, "intruder", &nonce_hex, &body), None);
    assert_eq!(run_request_begin(&state, &auth_key, &encode_lower(&[4u8; 12]), &body), None);
    assert_eq!(run_request_begin(&state, &auth_key, "not-hex!", &body), None);
    assert_eq!(run_request_begin(&state, &auth_key, &encode_lower(&[3u8; 11]), &body), None);
    let mut tampered = body.clone();
    tampered[0] ^= 0x01;
    assert_eq!(run_request_begin(&state, &auth_key, &nonce_hex, &tampered), None);
}
