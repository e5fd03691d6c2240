//! Cancellation registry: maps an in-flight request identifier to the
//! cooperative cancellation signal of that command.
//!
//! An entry is created immediately before a command runs and removed
//! exactly once when its outcome is determined, by whichever path gets
//! there first; a second removal of the same identifier finds nothing.
use vstd::prelude::*;

use std::collections::HashMap;
use tokio_util::sync::CancellationToken;

verus! {

broadcast use vstd::std_specs::hash::group_hash_axioms;

/// The cooperative cancellation signal of the tokio-util crate; opaque
/// here, fired through `fire_token` and awaited outside this library.
#[verifier::external_type_specification]
#[verifier::external_body]
pub struct ExCancellationToken(CancellationToken);

/// Relies on `CancellationToken::cancel`: wakes every task awaiting the
/// token; observable only through the token's own crate.
#[verifier::external_body]
fn fire_token(token: &CancellationToken) {
    token.cancel();
}

/// Registry of cancellation signals for in-flight commands, modelled as a
/// map from request identifier to signal handle.
pub struct CancellationRegistry {
    tokens: HashMap<usize, CancellationToken>,
}

impl View for CancellationRegistry {
    type V = Map<usize, CancellationToken>;

    closed spec fn view(&self) -> Map<usize, CancellationToken> {
        self.tokens@
    }
}

impl CancellationRegistry {
    /// An empty registry: no command is in flight.
    pub fn new() -> (r: Self)
        ensures
            r@ == Map::<usize, CancellationToken>::empty(),
    {
        CancellationRegistry { tokens: HashMap::new() }
    }

    /// Stores a cancellation signal for a request identifier; a signal
    /// already registered under the same identifier is silently replaced.
    pub fn register(&mut self, req_id: usize, token: CancellationToken)
        ensures
            final(self)@ == old(self)@.insert(req_id, token),
    {
        self.tokens.insert(req_id, token);
    }

    /// Whether a command is registered as in flight under this identifier.
    pub fn contains(&self, req_id: usize) -> (r: bool)
        ensures
            r == self@.contains_key(req_id),
    {
        self.tokens.contains_key(&req_id)
    }

    /// Removes and returns the signal registered under this identifier;
    /// idempotent, in that a second call for the same identifier returns
    /// nothing and changes nothing.
    pub fn remove(&mut self, req_id: usize) -> (r: Option<CancellationToken>)
        ensures
            final(self)@ == old(self)@.remove(req_id),
            old(self)@.contains_key(req_id) ==> r == Some(old(self)@[req_id]),
            !old(self)@.contains_key(req_id) ==> r is None,
    {
        self.tokens.remove(&req_id)
    }

    /// Fires and removes the signal registered under this identifier,
    /// reporting whether a matching in-flight command was found.
    pub fn cancel(&mut self, req_id: usize) -> (found: bool)
        ensures
            final(self)@ == old(self)@.remove(req_id),
            found == old(self)@.contains_key(req_id),
    {
        match self.remove(req_id) {
            Some(token) => {
                fire_token(&token);
                true
            },
            None => false,
        }
    }
}

/// Cancellation isolation: removing one request identifier from the
/// registry never disturbs the entry of any other identifier, so
/// concurrently running commands keep their own signals.
pub proof fn lemma_cancellation_isolation(
    m: Map<usize, CancellationToken>,
    cancelled: usize,
    other: usize,
)
    requires
        cancelled != other,
    ensures
        m.remove(cancelled).contains_key(other) == m.contains_key(other),
        m.contains_key(other) ==> m.remove(cancelled)[other] == m[other],
{
}

/// Cancellation idempotence: once an identifier has been removed, it is
/// absent from the registry, so a second cancellation of the same
/// identifier finds no in-flight command.
pub proof fn lemma_cancellation_idempotent(m: Map<usize, CancellationToken>, req_id: usize)
    ensures
        !m.remove(req_id).contains_key(req_id),
{
}

} // verus!
