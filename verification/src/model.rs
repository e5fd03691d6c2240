//! Plain response and payload types exchanged with callers.
use vstd::prelude::*;
use vstd::string::StringExecFns;

verus! {

/// Fixed liveness payload; lets a client detect that the agent is present.
pub struct HandshakeResponse {
    pub status: String,
    pub message: String,
}

/// Returned by a successful pairing confirmation.
#[derive(Debug)]
pub struct AuthKeyResponse {
    /// Opaque bearer credential minted for this registration.
    pub auth_key: String,
    /// UTC timestamp (RFC 3339) of the confirmation.
    pub created_at: String,
    /// Lowercase-hex encoding of the agent's ephemeral X25519 public key.
    pub agent_public_key_b16: String,
}

/// Liveness check: fixed success payload, no side effects.
pub fn handshake() -> (r: HandshakeResponse)
    ensures
        r.status@ == "success"@,
        r.message@ == "Agent ready! Hopp in, we've got requests to catch!"@,
{
    HandshakeResponse {
        status: String::from_str("success"),
        message: String::from_str("Agent ready! Hopp in, we've got requests to catch!"),
    }
}

} // verus!
