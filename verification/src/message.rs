//! The update message: a self-contained, independently verifiable claim
//! "user U asserts that the content is C, and here is proof U authorized it".
//! The signed payload is `user + " " + content`; the timestamp is
//! deliberately *not* covered by the signature, so the protocol offers no
//! replay protection — a known, preserved property of the design.
use vstd::prelude::*;
use vstd::string::StringExecFns;
use crate::crypto::SigningKey;
use crate::crypto::b64_decode;
use crate::crypto::b64_encode;
use crate::crypto::b64_of;
use crate::crypto::ed25519_check;
use crate::crypto::ed25519_pubkey_of;
use crate::crypto::ed25519_sig_of;
use crate::crypto::ed25519_verifies;
use crate::crypto::now_unix_seconds;

verus! {

/// Why an update was refused.
#[derive(PartialEq, Eq, Debug)]
pub enum ValidationError {
    /// The claimed author has no registered key; there is nothing to verify
    /// against.
    UnknownUser(String),
    /// The signature field does not decode from its printable encoding.
    MalformedSignature,
    /// The signature decodes but does not verify against the recomputed
    /// payload and the registered key.
    InvalidSignature,
}

/// The mathematical image of a `ValidationError`.
pub ghost enum ValidationErrorV {
    UnknownUser(Seq<char>),
    MalformedSignature,
    InvalidSignature,
}

impl Clone for ValidationError {
    fn clone(&self) -> (r: Self)
        ensures
            r == *self,
    {
        match self {
            ValidationError::UnknownUser(user) => ValidationError::UnknownUser(user.clone()),
            ValidationError::MalformedSignature => ValidationError::MalformedSignature,
            ValidationError::InvalidSignature => ValidationError::InvalidSignature,
        }
    }
}

impl View for ValidationError {
    type V = ValidationErrorV;

    open spec fn view(&self) -> ValidationErrorV {
        match self {
            ValidationError::UnknownUser(user) => ValidationErrorV::UnknownUser(user@),
            ValidationError::MalformedSignature => ValidationErrorV::MalformedSignature,
            ValidationError::InvalidSignature => ValidationErrorV::InvalidSignature,
        }
    }
}

/// The image of a validation result.
pub open spec fn res_view(r: Result<(), ValidationError>) -> Result<(), ValidationErrorV> {
    match r {
        Ok(()) => Ok(()),
        Err(e) => Err(e@),
    }
}

/// The canonical signed payload: the user, one ASCII space, the content.
/// No escaping is applied, and the timestamp is not part of it.
pub open spec fn payload_view(user: Seq<char>, contents: Seq<char>) -> Seq<char> {
    user + seq![' '] + contents
}

/// Whether `s` is the canonical base64 encoding of some byte string.
pub open spec fn b64_decodable(s: Seq<char>) -> bool {
    exists|b: Seq<u8>| s == b64_of(b)
}

/// The byte string a canonical base64 string stands for.
pub open spec fn b64_decoded(s: Seq<char>) -> Seq<u8> {
    choose|b: Seq<u8>| s == b64_of(b)
}

/// What signature verification returns for a message with the given fields,
/// checked against the public key `pubkey`.
pub open spec fn verify_view(
    user: Seq<char>,
    contents: Seq<char>,
    sig: Seq<char>,
    pubkey: Seq<u8>,
) -> Result<(), ValidationErrorV> {
    if !b64_decodable(sig) {
        Err(ValidationErrorV::MalformedSignature)
    } else if ed25519_verifies(pubkey, payload_view(user, contents), b64_decoded(sig)) {
        Ok(())
    } else {
        Err(ValidationErrorV::InvalidSignature)
    }
}

/// A signed update. Equality is structural over all four fields.
#[derive(PartialEq, Eq, Debug)]
pub struct UpdateMessage {
    /// The claimed author.
    pub user: String,
    /// When the message was produced, as Unix seconds. Informational only:
    /// it is not covered by the signature.
    pub utc: i64,
    /// The detached signature over the canonical payload, base64-encoded.
    pub signature: String,
    /// The asserted content.
    pub new_contents: String,
}

impl Clone for UpdateMessage {
    fn clone(&self) -> (r: Self)
        ensures
            r == *self,
    {
        UpdateMessage {
            user: self.user.clone(),
            utc: self.utc,
            signature: self.signature.clone(),
            new_contents: self.new_contents.clone(),
        }
    }
}

/// Build the canonical payload `user + " " + contents`.
fn build_payload(user: &str, contents: &str) -> (r: String)
    ensures
        r@ == payload_view(user@, contents@),
{
    let mut payload = String::from_str(user);
    payload.append(" ");
    payload.append(contents);
    proof {
        reveal_strlit(" ");
        assert(" "@ =~= seq![' ']);
        assert(payload@ =~= payload_view(user@, contents@));
    }
    payload
}

impl UpdateMessage {
    /// Construct a signed update: sign the canonical payload with `keypair`,
    /// stamp the current wall-clock time, and carry the signature in
    /// printable base64. The result always verifies against the signing
    /// key's public half.
    pub fn signed_message(keypair: &SigningKey, user: &str, msg: &str) -> (r: UpdateMessage)
        ensures
            r.user@ == user@,
            r.new_contents@ == msg@,
            r.signature@ == b64_of(ed25519_sig_of(keypair.pkcs8_doc(), payload_view(user@, msg@))),
            verify_view(user@, msg@, r.signature@, ed25519_pubkey_of(keypair.pkcs8_doc()))
                == Ok::<(), ValidationErrorV>(()),
    {
        let payload = build_payload(user, msg);
        let sig = keypair.sign_payload(payload.as_str());
        let base64_sig = b64_encode(sig.as_slice());
        proof {
            assert(b64_decodable(base64_sig@)) by {
                assert(base64_sig@ == b64_of(sig@));
            }
            assert(b64_decoded(base64_sig@) == sig@);
        }
        UpdateMessage {
            user: String::from_str(user),
            utc: now_unix_seconds(),
            signature: base64_sig,
            new_contents: String::from_str(msg),
        }
    }

    /// Check this message's signature against the given public key bytes:
    /// recompute the canonical payload, decode the signature from base64
    /// (failing with `MalformedSignature` before any cryptography), then run
    /// Ed25519 verification (failing with `InvalidSignature`). Never mutates
    /// anything.
    pub fn verify_signature(&self, pubkey_bytes: &[u8]) -> (r: Result<(), ValidationError>)
        ensures
            res_view(r) == verify_view(self.user@, self.new_contents@, self.signature@, pubkey_bytes@),
    {
        let payload = build_payload(self.user.as_str(), self.new_contents.as_str());
        let sig_bytes = match b64_decode(self.signature.as_str()) {
            Ok(v) => v,
            Err(_decode_error) => {
                return Err(ValidationError::MalformedSignature);
            },
        };
        proof {
            assert(b64_decodable(self.signature@)) by {
                assert(self.signature@ == b64_of(sig_bytes@));
            }
            assert(b64_decoded(self.signature@) == sig_bytes@);
        }
        if ed25519_check(pubkey_bytes, payload.as_str(), sig_bytes.as_slice()) {
            Ok(())
        } else {
            Err(ValidationError::InvalidSignature)
        }
    }
}

} // verus!
