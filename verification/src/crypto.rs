//! The trusted boundary to the cryptographic and encoding crates: Ed25519
//! key handling, signing and verification through `ring`, and the printable
//! signature encoding through `base64`. Every executable function here is
//! believed, not proved; its contract states only what the crates' own
//! sources and documentation show.
use vstd::prelude::*;
use ring::signature::KeyPair;

verus! {

/// The standard base64 encoding of a byte string, exactly as `base64`'s
/// `STANDARD` engine produces it.
pub uninterp spec fn b64_of(b: Seq<u8>) -> Seq<char>;

/// Whether a byte string is an Ed25519 PKCS#8 document that `ring`'s
/// `Ed25519KeyPair::from_pkcs8` accepts.
pub uninterp spec fn ed25519_pkcs8_wf(doc: Seq<u8>) -> bool;

/// The raw public verification key determined by an Ed25519 PKCS#8 document.
pub uninterp spec fn ed25519_pubkey_of(doc: Seq<u8>) -> Seq<u8>;

/// The signature that the key pair of `doc` produces over `payload`
/// (Ed25519 signing is deterministic, so this is a function of the two).
pub uninterp spec fn ed25519_sig_of(doc: Seq<u8>, payload: Seq<char>) -> Seq<u8>;

/// Whether Ed25519 verification accepts `sig` as a signature over `payload`
/// under the public key `pubkey`.
pub uninterp spec fn ed25519_verifies(pubkey: Seq<u8>, payload: Seq<char>, sig: Seq<u8>) -> bool;

#[verifier::external_type_specification]
#[verifier::external_body]
pub struct ExEd25519KeyPair(ring::signature::Ed25519KeyPair);

#[verifier::external_type_specification]
#[verifier::external_body]
pub struct ExDecodeError(base64::DecodeError);

/// A private signing identity: `ring`'s in-memory key pair together with the
/// PKCS#8 document it was parsed from. The document identifies the key in
/// every contract; the paired fields are only ever built by `from_pkcs8`
/// below, so they always agree.
pub struct SigningKey {
    key_pair: ring::signature::Ed25519KeyPair,
    pkcs8: Vec<u8>,
}

impl SigningKey {
    /// The PKCS#8 document this key was parsed from.
    pub closed spec fn pkcs8_doc(&self) -> Seq<u8> {
        self.pkcs8@
    }

    /// Relies on `ring::signature::Ed25519KeyPair::from_pkcs8`, which accepts
    /// exactly the well-formed Ed25519 PKCS#8 documents; the returned key
    /// pair is the one encoded in `doc`, which is kept beside it.
    #[verifier::external_body]
    pub fn from_pkcs8(doc: &[u8]) -> (r: Result<SigningKey, ()>)
        ensures
            r is Ok <==> ed25519_pkcs8_wf(doc@),
            r is Ok ==> r->Ok_0.pkcs8_doc() == doc@,
    {
        match ring::signature::Ed25519KeyPair::from_pkcs8(doc) {
            Ok(key_pair) => Ok(SigningKey { key_pair, pkcs8: doc.to_vec() }),
            Err(_rejected) => Err(()),
        }
    }

    /// Generate a fresh signing key from the system's random source.
    /// Returns `None` only if that source fails.
    pub fn generate() -> (r: Option<SigningKey>)
        ensures
            r is Some ==> ed25519_pkcs8_wf(r->Some_0.pkcs8_doc()),
    {
        match generate_pkcs8_doc() {
            Ok(doc) => match SigningKey::from_pkcs8(doc.as_slice()) {
                Ok(key) => Some(key),
                Err(()) => None,
            },
            Err(()) => None,
        }
    }

    /// The PKCS#8 document holding this key's private half. Trusted-operator
    /// material: it must never be handed to the request-serving surface.
    pub fn pkcs8_document(&self) -> (r: &[u8])
        ensures
            r@ == self.pkcs8_doc(),
    {
        self.pkcs8.as_slice()
    }

    /// Relies on `ring::signature::Ed25519KeyPair::sign`: Ed25519 signing is
    /// a deterministic function of the key and the message, and the signature
    /// it produces verifies under this key's public half.
    #[verifier::external_body]
    pub(crate) fn sign_payload(&self, payload: &str) -> (r: Vec<u8>)
        ensures
            r@ == ed25519_sig_of(self.pkcs8_doc(), payload@),
            ed25519_verifies(ed25519_pubkey_of(self.pkcs8_doc()), payload@, r@),
    {
        self.key_pair.sign(payload.as_bytes()).as_ref().to_vec()
    }

    /// Relies on `ring::signature::KeyPair::public_key` for Ed25519: the raw
    /// public key bytes, determined by the PKCS#8 document alone.
    #[verifier::external_body]
    pub fn public_key_bytes(&self) -> (r: Vec<u8>)
        ensures
            r@ == ed25519_pubkey_of(self.pkcs8_doc()),
    {
        self.key_pair.public_key().as_ref().to_vec()
    }
}

/// Relies on `ring::signature::Ed25519KeyPair::generate_pkcs8` with the
/// system random source; every document it returns parses back with
/// `from_pkcs8`.
#[verifier::external_body]
fn generate_pkcs8_doc() -> (r: Result<Vec<u8>, ()>)
    ensures
        r is Ok ==> ed25519_pkcs8_wf(r->Ok_0@),
{
    let rng = ring::rand::SystemRandom::new();
    match ring::signature::Ed25519KeyPair::generate_pkcs8(&rng) {
        Ok(doc) => Ok(doc.as_ref().to_vec()),
        Err(_unspecified) => Err(()),
    }
}

/// Relies on Ed25519 verification through
/// `ring::signature::UnparsedPublicKey::verify`: acceptance is a
/// deterministic function of key, message and signature.
#[verifier::external_body]
pub(crate) fn ed25519_check(pubkey: &[u8], payload: &str, sig: &[u8]) -> (r: bool)
    ensures
        r == ed25519_verifies(pubkey@, payload@, sig@),
{
    ring::signature::UnparsedPublicKey::new(&ring::signature::ED25519, pubkey)
        .verify(payload.as_bytes(), sig)
        .is_ok()
}

/// Relies on `base64`'s `STANDARD` engine encode; the encoding is injective,
/// since decoding inverts it.
#[verifier::external_body]
pub(crate) fn b64_encode(b: &[u8]) -> (r: String)
    ensures
        r@ == b64_of(b@),
        forall|c: Seq<u8>| r@ == b64_of(c) ==> c == b@,
{
    base64::Engine::encode(&base64::engine::general_purpose::STANDARD, b)
}

/// Relies on `base64`'s `STANDARD` engine decode, which accepts exactly the
/// canonical (padded, no trailing bits) encodings that encode produces, and
/// inverts encode on them.
#[verifier::external_body]
pub(crate) fn b64_decode(s: &str) -> (r: Result<Vec<u8>, base64::DecodeError>)
    ensures
        match r {
            Ok(v) => s@ == b64_of(v@) && (forall|c: Seq<u8>| s@ == b64_of(c) ==> c == v@),
            Err(_) => forall|c: Seq<u8>| s@ != b64_of(c),
        },
{
    base64::Engine::decode(&base64::engine::general_purpose::STANDARD, s)
}

/// Relies on `chrono::Utc::now`: the current wall-clock time in Unix
/// seconds. Nothing is assumed of the clock's value.
#[verifier::external_body]
pub(crate) fn now_unix_seconds() -> i64 {
    chrono::Utc::now().timestamp()
}

} // verus!
