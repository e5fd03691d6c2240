//! Secure session store: maps opaque bearer credentials to the shared
//! secret and metadata established at pairing confirmation.
//!
//! The table is mutated only through `update_registrations`, a whole-table
//! transaction, so a reader never observes a partially applied change.
//! Inbound commands are authenticated and decrypted here; an unknown
//! credential, a malformed nonce and a failed decryption are deliberately
//! indistinguishable to the caller.
use vstd::prelude::*;

use crate::codec;
use crate::hex;

verus! {

/// An established pairing: immutable once created, destroyed only with the
/// process.
pub struct Registration {
    /// UTC timestamp (RFC 3339) of the pairing confirmation.
    pub registered_at: String,
    /// The 32 raw bytes of the X25519 shared secret.
    pub shared_secret: Vec<u8>,
}

/// The mathematical content of a `Registration`.
pub struct RegistrationView {
    pub registered_at: Seq<char>,
    pub shared_secret: Seq<u8>,
}

impl View for Registration {
    type V = RegistrationView;

    open spec fn view(&self) -> RegistrationView {
        RegistrationView {
            registered_at: self.registered_at@,
            shared_secret: self.shared_secret@,
        }
    }
}

struct StoreEntry {
    auth_key: String,
    registration: Registration,
}

/// The session table: a finite map from bearer credential to registration.
pub struct SessionStore {
    entries: Vec<StoreEntry>,
}

/// No two entries carry the same credential.
spec fn distinct_keys(s: Seq<StoreEntry>) -> bool {
    forall|i: int, j: int| 0 <= i < j < s.len() ==> s[i].auth_key@ != s[j].auth_key@
}

/// The map denoted by an entry sequence, later entries overriding earlier.
spec fn entries_map(s: Seq<StoreEntry>) -> Map<Seq<char>, RegistrationView>
    decreases s.len(),
{
    if s.len() == 0 {
        Map::<Seq<char>, RegistrationView>::empty()
    } else {
        entries_map(s.drop_last()).insert(s.last().auth_key@, s.last().registration@)
    }
}

/// A credential that matches no entry is absent from the map.
proof fn lemma_entries_map_absent(s: Seq<StoreEntry>, k: Seq<char>)
    requires
        forall|j: int| 0 <= j < s.len() ==> (#[trigger] s[j].auth_key@) != k,
    ensures
        !entries_map(s).contains_key(k),
    decreases s.len(),
{
    if s.len() > 0 {
        assert(forall|j: int|
            0 <= j < s.drop_last().len() ==> (#[trigger] s.drop_last()[j].auth_key@) != k);
        lemma_entries_map_absent(s.drop_last(), k);
    }
}

/// The entry at any index is in the map, with its registration as value.
proof fn lemma_entries_map_at(s: Seq<StoreEntry>, i: int)
    requires
        distinct_keys(s),
        0 <= i < s.len(),
    ensures
        entries_map(s).contains_key(s[i].auth_key@),
        entries_map(s)[s[i].auth_key@] == s[i].registration@,
    decreases s.len(),
{
    if i < s.len() - 1 {
        assert(distinct_keys(s.drop_last()));
        lemma_entries_map_at(s.drop_last(), i);
        assert(s.drop_last()[i] == s[i]);
        assert(s.last().auth_key@ != s[i].auth_key@);
    }
}

/// Distinctness survives removing an entry.
proof fn lemma_distinct_remove(s: Seq<StoreEntry>, i: int)
    requires
        distinct_keys(s),
        0 <= i < s.len(),
    ensures
        distinct_keys(s.remove(i)),
{
    s.remove_ensures(i);
    assert forall|p: int, q: int|
        0 <= p < q < s.remove(i).len() implies s.remove(i)[p].auth_key@
        != s.remove(i)[q].auth_key@ by {
        let p0: int = if p < i { p } else { p + 1 };
        let q0: int = if q < i { q } else { q + 1 };
        assert(s.remove(i)[p] == s[p0]);
        assert(s.remove(i)[q] == s[q0]);
    }
}

/// Removing the entry at an index removes exactly its credential from the
/// denoted map.
proof fn lemma_entries_map_remove(s: Seq<StoreEntry>, i: int)
    requires
        distinct_keys(s),
        0 <= i < s.len(),
    ensures
        entries_map(s.remove(i)) == entries_map(s).remove(s[i].auth_key@),
    decreases s.len(),
{
    let k = s[i].auth_key@;
    if i == s.len() - 1 {
        assert(s.remove(i) =~= s.drop_last());
        assert(forall|j: int|
            0 <= j < s.drop_last().len() ==> (#[trigger] s.drop_last()[j].auth_key@) != k);
        lemma_entries_map_absent(s.drop_last(), k);
        assert(entries_map(s.drop_last()) =~= entries_map(s).remove(k));
    } else {
        let t = s.remove(i);
        let pre = s.drop_last();
        assert(distinct_keys(pre));
        assert(t.drop_last() =~= pre.remove(i));
        assert(t.last() == s.last());
        lemma_entries_map_remove(pre, i);
        assert(pre[i] == s[i]);
        assert(s.last().auth_key@ != k);
        assert(entries_map(t) == entries_map(pre).remove(k).insert(
            s.last().auth_key@,
            s.last().registration@,
        ));
        assert(entries_map(pre).remove(k).insert(s.last().auth_key@, s.last().registration@)
            =~= entries_map(pre).insert(s.last().auth_key@, s.last().registration@).remove(k));
    }
}

/// What an inbound command decrypts to, given the session table: nothing
/// when the credential is unknown, the nonce is not twelve hex-encoded
/// bytes, or authentication fails; the plaintext otherwise. The branches
/// are indistinguishable in the result.
pub open spec fn command_plaintext(
    table: Map<Seq<char>, RegistrationView>,
    auth_key: Seq<char>,
    nonce_b16: Seq<char>,
    body: Seq<u8>,
) -> Option<Seq<u8>> {
    if !table.contains_key(auth_key) {
        None
    } else {
        match hex::hex_decoding(nonce_b16) {
            Some(nonce) => if nonce.len() == 12 {
                codec::opened(table[auth_key].shared_secret, nonce, body)
            } else {
                None
            },
            None => None,
        }
    }
}

impl View for SessionStore {
    type V = Map<Seq<char>, RegistrationView>;

    closed spec fn view(&self) -> Map<Seq<char>, RegistrationView> {
        entries_map(self.entries@)
    }
}

impl SessionStore {
    /// Credentials are distinct and every stored secret is 32 bytes.
    pub closed spec fn wf(&self) -> bool {
        &&& distinct_keys(self.entries@)
        &&& forall|j: int|
            0 <= j < self.entries@.len() ==> (#[trigger] self.entries@[j].registration@)
                .shared_secret.len() == 32
    }

    /// An empty table.
    pub fn new() -> (r: Self)
        ensures
            r@ == Map::<Seq<char>, RegistrationView>::empty(),
            r.wf(),
    {
        let r = SessionStore { entries: Vec::new() };
        proof {
            assert(r.entries@.len() == 0);
        }
        r
    }

    /// Index of the entry holding this credential, if any.
    fn find(&self, auth_key: &str) -> (r: Option<usize>)
        ensures
            match r {
                Some(i) => i < self.entries@.len() && self.entries@[i as int].auth_key@
                    == auth_key@,
                None => !self@.contains_key(auth_key@),
            },
    {
        let key = auth_key.to_owned();
        let n = self.entries.len();
        for i in 0..n
            invariant
                n == self.entries@.len(),
                key@ == auth_key@,
                forall|j: int| 0 <= j < i ==> (#[trigger] self.entries@[j].auth_key@) != key@,
        {
            if self.entries[i].auth_key == key {
                return Some(i);
            }
        }
        proof {
            lemma_entries_map_absent(self.entries@, auth_key@);
        }
        None
    }

    /// Pure existence check for a bearer credential.
    pub fn validate_access(&self, auth_key: &str) -> (r: bool)
        requires
            self.wf(),
        ensures
            r == self@.contains_key(auth_key@),
    {
        match self.find(auth_key) {
            Some(i) => {
                proof {
                    lemma_entries_map_at(self.entries@, i as int);
                }
                true
            },
            None => false,
        }
    }

    /// Fetches the registration bound to a credential; absence is a normal
    /// outcome, not an error.
    pub fn get_registration_info(&self, auth_key: &str) -> (r: Option<&Registration>)
        requires
            self.wf(),
        ensures
            match r {
                Some(reg) => self@.contains_key(auth_key@) && reg@ == self@[auth_key@]
                    && reg.shared_secret@.len() == 32,
                None => !self@.contains_key(auth_key@),
            },
    {
        match self.find(auth_key) {
            Some(i) => {
                proof {
                    lemma_entries_map_at(self.entries@, i as int);
                }
                Some(&self.entries[i].registration)
            },
            None => None,
        }
    }

    /// Authenticates and decrypts an inbound command: looks up the shared
    /// secret for the credential, checks the hex-encoded nonce, and opens
    /// the ciphertext. All failure causes collapse to `None` so a rejected
    /// caller cannot learn why it was rejected.
    pub fn validate_access_and_get_data(&self, auth_key: &str, nonce_b16: &str, body: &[u8]) -> (r:
        Option<Vec<u8>>)
        requires
            self.wf(),
        ensures
            hex::opt_bytes_view(r) == command_plaintext(self@, auth_key@, nonce_b16@, body@),
    {
        let reg = match self.get_registration_info(auth_key) {
            Some(reg) => reg,
            None => {
                return None;
            },
        };
        let nonce = match hex::decode(nonce_b16) {
            Some(nonce) => nonce,
            None => {
                return None;
            },
        };
        if nonce.len() != 12 {
            return None;
        }
        codec::decrypt(reg.shared_secret.as_slice(), nonce.as_slice(), body)
    }

    /// The sole mutation entry point: one whole-table transaction that
    /// binds a credential to a registration, replacing any entry already
    /// bound to the same credential.
    pub fn update_registrations(&mut self, auth_key: String, registration: Registration)
        requires
            old(self).wf(),
            registration.shared_secret@.len() == 32,
        ensures
            final(self).wf(),
            final(self)@ == old(self)@.insert(auth_key@, registration@),
    {
        let ghost kv = auth_key@;
        let ghost rv = registration@;
        let ghost old_entries = self.entries@;
        match self.find(auth_key.as_str()) {
            Some(i) => {
                proof {
                    lemma_entries_map_at(old_entries, i as int);
                    lemma_entries_map_remove(old_entries, i as int);
                    lemma_distinct_remove(old_entries, i as int);
                }
                self.entries.remove(i);
                proof {
                    old_entries.remove_ensures(i as int);
                    assert forall|j: int|
                        0 <= j < self.entries@.len() implies (#[trigger] self.entries@[j].auth_key@)
                        != kv by {
                        if j < i {
                            assert(self.entries@[j] == old_entries[j]);
                        } else {
                            assert(self.entries@[j] == old_entries[j + 1]);
                        }
                    }
                    lemma_entries_map_absent(self.entries@, kv);
                }
            },
            None => {},
        }
        let ghost mid_entries = self.entries@;
        assert(!entries_map(mid_entries).contains_key(kv));
        assert(distinct_keys(mid_entries));
        self.entries.push(StoreEntry { auth_key, registration });
        proof {
            assert(self.entries@.drop_last() =~= mid_entries);
            assert(self.entries@.last().auth_key@ == kv);
            assert(self@ =~= old(self)@.insert(kv, rv));
            assert forall|p: int, q: int|
                0 <= p < q < self.entries@.len() implies self.entries@[p].auth_key@
                != self.entries@[q].auth_key@ by {
                assert(self.entries@[p] == mid_entries[p]);
                if q < self.entries@.len() - 1 {
                    assert(self.entries@[q] == mid_entries[q]);
                } else {
                    lemma_entries_map_at(mid_entries, p);
                }
            }
        }
    }
}

} // verus!
