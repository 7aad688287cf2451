//! The registry engine: the identity store (username to public key bytes),
//! the name registry (name to last accepted update), and the authorization
//! gate through which every untrusted write must pass.
use vstd::prelude::*;
use vstd::slice::slice_to_vec;
use vstd::string::StringExecFns;
use crate::crypto::SigningKey;
use crate::crypto::b64_encode;
use crate::crypto::b64_of;
use crate::crypto::ed25519_pkcs8_wf;
use crate::crypto::ed25519_pubkey_of;
use crate::crypto::ed25519_verifies;
use crate::message::UpdateMessage;
use crate::message::ValidationError;
use crate::message::ValidationErrorV;
use crate::message::b64_decodable;
use crate::message::b64_decoded;
use crate::message::payload_view;
use crate::message::res_view;
use crate::message::verify_view;

verus! {

/// The value stored under key `k` in an association list where the latest
/// entry for a key is the one in force.
spec fn assoc_lookup<T>(entries: Seq<(String, T)>, k: Seq<char>) -> Option<T>
    decreases entries.len(),
{
    if entries.len() == 0 {
        None
    } else if entries.last().0@ == k {
        Some(entries.last().1)
    } else {
        assoc_lookup(entries.drop_last(), k)
    }
}

/// Look up the entry in force for `key`, scanning from the latest entry back.
fn assoc_get<'a, T>(entries: &'a Vec<(String, T)>, key: &str) -> (r: Option<&'a T>)
    ensures
        match r {
            Some(t) => assoc_lookup(entries@, key@) == Some(*t),
            None => assoc_lookup(entries@, key@) is None,
        },
{
    let wanted = String::from_str(key);
    let mut i: usize = entries.len();
    proof {
        assert(entries@.take(i as int) =~= entries@);
    }
    while i > 0
        invariant
            i <= entries.len(),
            wanted@ == key@,
            assoc_lookup(entries@, key@) == assoc_lookup(entries@.take(i as int), key@),
        decreases i,
    {
        i = i - 1;
        let entry = &entries[i];
        proof {
            assert(entries@.take(i as int + 1).last() == entries@[i as int]);
            assert(entries@.take(i as int + 1).drop_last() =~= entries@.take(i as int));
        }
        if entry.0 == wanted {
            return Some(&entry.1);
        }
    }
    None
}

/// Record `value` as the entry in force for `key`.
fn assoc_put<T>(entries: &mut Vec<(String, T)>, key: &str, value: T)
    ensures
        forall|q: Seq<char>| #[trigger] assoc_lookup(final(entries)@, q) == (if q == key@ {
            Some(value)
        } else {
            assoc_lookup(old(entries)@, q)
        }),
{
    entries.push((String::from_str(key), value));
    proof {
        assert(entries@.drop_last() =~= old(entries)@);
    }
}

/// What validation returns for a message with the given fields against an
/// identity store: unknown users are rejected before any cryptography, and
/// otherwise the result is that of signature verification against the
/// registered key.
pub open spec fn validate_view(
    ids: Map<Seq<char>, Seq<u8>>,
    user: Seq<char>,
    contents: Seq<char>,
    sig: Seq<char>,
) -> Result<(), ValidationErrorV> {
    if !ids.contains_key(user) {
        Err(ValidationErrorV::UnknownUser(user))
    } else {
        verify_view(user, contents, sig, ids[user])
    }
}

/// The shared registry state: identity store and name registry. All mutation
/// of the name registry from untrusted input goes through
/// `apply_update_if_valid`.
#[derive(Clone, Debug)]
pub struct ServerData {
    names: Vec<(String, UpdateMessage)>,
    keys: Vec<(String, Vec<u8>)>,
}

impl Default for ServerData {
    /// A fresh store: no registered users, no stored names.
    fn default() -> (r: ServerData)
        ensures
            r.name_registry() == Map::<Seq<char>, UpdateMessage>::empty(),
            r.id_store() == Map::<Seq<char>, Seq<u8>>::empty(),
    {
        let r = ServerData { names: Vec::new(), keys: Vec::new() };
        proof {
            assert(r.name_registry() =~= Map::<Seq<char>, UpdateMessage>::empty());
            assert(r.id_store() =~= Map::<Seq<char>, Seq<u8>>::empty());
        }
        r
    }
}

impl ServerData {
    /// The name registry: the last accepted message under each name.
    pub closed spec fn name_registry(self) -> Map<Seq<char>, UpdateMessage> {
        Map::new(
            |n: Seq<char>| assoc_lookup(self.names@, n) is Some,
            |n: Seq<char>| assoc_lookup(self.names@, n)->Some_0,
        )
    }

    /// The identity store: the registered public key bytes of each user.
    pub closed spec fn id_store(self) -> Map<Seq<char>, Seq<u8>> {
        Map::new(
            |u: Seq<char>| assoc_lookup(self.keys@, u) is Some,
            |u: Seq<char>| (assoc_lookup(self.keys@, u)->Some_0)@,
        )
    }

    /// Pure lookup of the message currently stored under `name`.
    pub fn get_name(&self, name: &str) -> (r: Option<&UpdateMessage>)
        ensures
            match r {
                Some(m) => self.name_registry().contains_key(name@)
                    && *m == self.name_registry()[name@],
                None => !self.name_registry().contains_key(name@),
            },
    {
        assoc_get(&self.names, name)
    }

    /// Pure lookup of the public key registered for `id`.
    pub fn get_id_key(&self, id: &str) -> (r: Option<&[u8]>)
        ensures
            match r {
                Some(k) => self.id_store().contains_key(id@) && k@ == self.id_store()[id@],
                None => !self.id_store().contains_key(id@),
            },
    {
        match assoc_get(&self.keys, id) {
            Some(v) => Some(v.as_slice()),
            None => None,
        }
    }

    /// Register (or overwrite) a user's public key. No authorization check:
    /// trusted-caller only, never reachable from unauthenticated input.
    pub fn add_id(&mut self, id: &str, key: &[u8])
        ensures
            final(self).id_store() == old(self).id_store().insert(id@, key@),
            final(self).name_registry() == old(self).name_registry(),
    {
        let owned = slice_to_vec(key);
        assoc_put(&mut self.keys, id, owned);
        proof {
            assert(self.id_store() =~= old(self).id_store().insert(id@, key@));
            assert(self.name_registry() =~= old(self).name_registry());
        }
    }

    /// Store `contents` under `name` unconditionally, bypassing verification.
    /// Trusted initializers only (seeding a default value); never reachable
    /// from an unauthenticated request path.
    pub fn update_name(&mut self, name: &str, contents: &UpdateMessage)
        ensures
            final(self).name_registry() == old(self).name_registry().insert(name@, *contents),
            final(self).id_store() == old(self).id_store(),
    {
        assoc_put(&mut self.names, name, contents.clone());
        proof {
            assert(self.name_registry() =~= old(self).name_registry().insert(name@, *contents));
            assert(self.id_store() =~= old(self).id_store());
        }
    }

    /// Validate `msg`: reject an unregistered claimed author with
    /// `UnknownUser`, otherwise check its signature against the registered
    /// key, propagating `MalformedSignature` / `InvalidSignature` unchanged.
    pub fn validate_update(&self, msg: &UpdateMessage) -> (r: Result<(), ValidationError>)
        ensures
            res_view(r) == validate_view(self.id_store(), msg.user@, msg.new_contents@, msg.signature@),
    {
        match self.get_id_key(msg.user.as_str()) {
            Some(key) => msg.verify_signature(key),
            None => Err(ValidationError::UnknownUser(msg.user.clone())),
        }
    }

    /// The authorization gate: commit `msg` under `dest` exactly when it
    /// validates, and on any failure leave the store completely unchanged,
    /// returning the specific error for the caller to translate.
    pub fn apply_update_if_valid(&mut self, dest: &str, msg: &UpdateMessage) -> (r: Result<
        (),
        ValidationError,
    >)
        ensures
            res_view(r) == validate_view(
                old(self).id_store(),
                msg.user@,
                msg.new_contents@,
                msg.signature@,
            ),
            final(self).id_store() == old(self).id_store(),
            r is Ok ==> final(self).name_registry() == old(self).name_registry().insert(
                dest@,
                *msg,
            ),
            r is Err ==> *final(self) == *old(self),
    {
        match self.validate_update(msg) {
            Ok(()) => {
                self.update_name(dest, msg);
                Ok(())
            },
            Err(e) => Err(e),
        }
    }

    /// Provisioning utility (trusted path only): generate a fresh key pair,
    /// register its public half under `username`, and hand the
    /// base64-encoded private PKCS#8 document back to the trusted operator.
    /// Returns `None` only if the system random source fails, in which case
    /// nothing changes.
    pub fn add_user(&mut self, username: &str) -> (r: Option<String>)
        ensures
            final(self).name_registry() == old(self).name_registry(),
            match r {
                Some(privkey) => exists|doc: Seq<u8>|
                    #[trigger] ed25519_pkcs8_wf(doc) && privkey@ == b64_of(doc)
                        && final(self).id_store() == old(self).id_store().insert(
                        username@,
                        ed25519_pubkey_of(doc),
                    ),
                None => *final(self) == *old(self),
            },
    {
        let key = match SigningKey::generate() {
            Some(k) => k,
            None => {
                return None;
            },
        };
        let pubkey = key.public_key_bytes();
        self.add_id(username, pubkey.as_slice());
        let encoded = b64_encode(key.pkcs8_document());
        proof {
            let doc = key.pkcs8_doc();
            assert(ed25519_pkcs8_wf(doc) && encoded@ == b64_of(doc)
                && self.id_store() == old(self).id_store().insert(
                    username@,
                    ed25519_pubkey_of(doc),
                ));
        }
        Some(encoded)
    }
}

/// Law: an update claiming an author with no registered key is always
/// rejected as `UnknownUser`, whatever its content or signature and whatever
/// the rest of the store holds.
pub proof fn lemma_unknown_user_rejected(
    ids: Map<Seq<char>, Seq<u8>>,
    user: Seq<char>,
    contents: Seq<char>,
    sig: Seq<char>,
)
    requires
        !ids.contains_key(user),
    ensures
        validate_view(ids, user, contents, sig) == Err::<(), ValidationErrorV>(
            ValidationErrorV::UnknownUser(user),
        ),
{
}

/// Law: when the claimed author is registered but the signature does not
/// verify over the recomputed payload, the update is rejected as
/// `InvalidSignature` — never silently accepted.
pub proof fn lemma_invalid_signature_rejected(
    ids: Map<Seq<char>, Seq<u8>>,
    user: Seq<char>,
    contents: Seq<char>,
    sig: Seq<char>,
)
    requires
        ids.contains_key(user),
        b64_decodable(sig),
        !ed25519_verifies(ids[user], payload_view(user, contents), b64_decoded(sig)),
    ensures
        validate_view(ids, user, contents, sig) == Err::<(), ValidationErrorV>(
            ValidationErrorV::InvalidSignature,
        ),
{
}

/// Law: after a commit, the registry holds exactly the committed message
/// under the target name, and every other name reads back as before.
pub proof fn lemma_committed_update_visible(
    registry: Map<Seq<char>, UpdateMessage>,
    name: Seq<char>,
    m: UpdateMessage,
    other: Seq<char>,
)
    requires
        other != name,
    ensures
        registry.insert(name, m).contains_key(name),
        registry.insert(name, m)[name] == m,
        registry.insert(name, m).contains_key(other) == registry.contains_key(other),
        registry.contains_key(other) ==> registry.insert(name, m)[other] == registry[other],
{
}

} // verus!
