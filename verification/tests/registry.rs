use rustyweb::crypto::SigningKey;
use rustyweb::hello;
use rustyweb::message::UpdateMessage;
use rustyweb::message::ValidationError;
use rustyweb::store::ServerData;

fn generate_keypair() -> SigningKey {
    SigningKey::generate().expect("system random source failed")
}

#[test]
fn test_basic() {
    let content = hello();
    assert_eq!(content, "Hello world");
}

#[test]
fn test_id() {
    let keypair = generate_keypair();
    let mut s = ServerData::default();
    s.add_id("unittest_user", keypair.public_key_bytes().as_slice());
    let stored = s.get_id_key("unittest_user").expect("key was just registered");
    assert_eq!(stored, keypair.public_key_bytes().as_slice());
}

#[test]
fn test_get_name() {
    let keypair = generate_keypair();
    let mut s = ServerData::default();
    s.add_id("unittest_user", keypair.public_key_bytes().as_slice());
    let value = UpdateMessage::signed_message(&keypair, "unittest_user", "unittest_value");
    s.update_name("unittest_name", &value);

    // Unset name: absent, no error.
    assert!(s.get_name("test_no_name").is_none());

    // Set name: reads back structurally equal.
    let read = s.get_name("unittest_name").expect("name was just seeded");
    assert_eq!(*read, value);
}

#[test]
fn test_post_name() {
    let keypair = generate_keypair();
    let mut s = ServerData::default();
    s.add_id("unittest_user", keypair.public_key_bytes().as_slice());

    // See that the name does not exist yet.
    assert!(s.get_name("test_post_name").is_none());

    let changed_name = "foo!";
    let data = UpdateMessage::signed_message(&keypair, "unittest_user", changed_name);

    // Change the name.
    assert!(s.apply_update_if_valid("test_post_name", &data).is_ok());

    // Test the name now that it has been changed.
    let read = s.get_name("test_post_name").expect("the write was accepted");
    assert_eq!(*read, data);

    // Try changing it again with an unsigned request.
    let baddata = UpdateMessage {
        user: "unittest_user".to_string(),
        utc: data.utc,
        signature: "".to_string(),
        new_contents: "aieeee!".to_string(),
    };
    assert!(s.apply_update_if_valid("test_post_name", &baddata).is_err());

    // Ensure it hasn't changed.
    let read = s.get_name("test_post_name").expect("the earlier write stays");
    assert_eq!(*read, data);
}

#[test]
fn round_trip_authenticity() {
    let keypair = generate_keypair();
    let m = UpdateMessage::signed_message(&keypair, "alice", "some content");
    let pk = keypair.public_key_bytes();
    assert_eq!(m.verify_signature(pk.as_slice()), Ok(()));
}

#[test]
fn tampered_content_is_rejected() {
    let keypair = generate_keypair();
    let m = UpdateMessage::signed_message(&keypair, "alice", "pay bob 1");
    let pk = keypair.public_key_bytes();
    let tampered = UpdateMessage { new_contents: "pay bob 9".to_string(), ..m.clone() };
    assert_eq!(tampered.verify_signature(pk.as_slice()), Err(ValidationError::InvalidSignature));
}

#[test]
fn tampered_user_is_rejected() {
    let keypair = generate_keypair();
    let m = UpdateMessage::signed_message(&keypair, "alice", "hello");
    let pk = keypair.public_key_bytes();
    let tampered = UpdateMessage { user: "alicf".to_string(), ..m.clone() };
    assert_eq!(tampered.verify_signature(pk.as_slice()), Err(ValidationError::InvalidSignature));
}

#[test]
fn tampered_signature_is_rejected() {
    let keypair = generate_keypair();
    let m = UpdateMessage::signed_message(&keypair, "alice", "hello");
    let pk = keypair.public_key_bytes();

    // Flip the first base64 symbol: still decodes, but to different bytes.
    let mut flipped: Vec<char> = m.signature.chars().collect();
    flipped[0] = if flipped[0] == 'A' { 'B' } else { 'A' };
    let flipped: String = flipped.into_iter().collect();
    assert_ne!(flipped, m.signature);
    let bad = UpdateMessage { signature: flipped, ..m.clone() };
    assert_eq!(bad.verify_signature(pk.as_slice()), Err(ValidationError::InvalidSignature));

    // Break the encoding itself: rejected before any cryptography.
    let mut broken = m.signature.clone();
    broken.push('!');
    let malformed = UpdateMessage { signature: broken, ..m.clone() };
    assert_eq!(
        malformed.verify_signature(pk.as_slice()),
        Err(ValidationError::MalformedSignature)
    );
}

#[test]
fn unknown_user_is_rejected_and_registry_untouched() {
    let keypair = generate_keypair();
    let mut s = ServerData::default();
    let m = UpdateMessage::signed_message(&keypair, "nobody", "anything");
    assert_eq!(
        s.apply_update_if_valid("doc", &m),
        Err(ValidationError::UnknownUser("nobody".to_string()))
    );
    assert!(s.get_name("doc").is_none());

    // The same holds when the name already has a value from another user.
    s.add_id("alice", keypair.public_key_bytes().as_slice());
    let m1 = UpdateMessage::signed_message(&keypair, "alice", "v1");
    assert_eq!(s.apply_update_if_valid("doc", &m1), Ok(()));
    let m2 = UpdateMessage::signed_message(&keypair, "stranger", "v2");
    assert_eq!(
        s.apply_update_if_valid("doc", &m2),
        Err(ValidationError::UnknownUser("stranger".to_string()))
    );
    assert_eq!(*s.get_name("doc").expect("the valid write stays"), m1);
}

#[test]
fn malformed_signature_is_rejected_by_the_gate() {
    let keypair = generate_keypair();
    let mut s = ServerData::default();
    s.add_id("alice", keypair.public_key_bytes().as_slice());
    let m = UpdateMessage {
        user: "alice".to_string(),
        utc: 0,
        signature: "not base64 at all!".to_string(),
        new_contents: "v1".to_string(),
    };
    assert_eq!(
        s.apply_update_if_valid("doc", &m),
        Err(ValidationError::MalformedSignature)
    );
    assert!(s.get_name("doc").is_none());
}

#[test]
fn alice_scenario() {
    let alice_key = generate_keypair();
    let mut s = ServerData::default();
    s.add_id("alice", alice_key.public_key_bytes().as_slice());

    let m = UpdateMessage::signed_message(&alice_key, "alice", "v1");
    assert_eq!(s.apply_update_if_valid("doc", &m), Ok(()));
    assert_eq!(*s.get_name("doc").expect("the write was accepted"), m);

    // A message claiming to be alice but signed with a different key pair.
    let other_key = generate_keypair();
    let m2_forged = UpdateMessage::signed_message(&other_key, "alice", "v2");
    assert_eq!(
        s.apply_update_if_valid("doc", &m2_forged),
        Err(ValidationError::InvalidSignature)
    );
    assert_eq!(*s.get_name("doc").expect("the old value stays"), m);
}

#[test]
fn fresh_store_has_no_names() {
    let s = ServerData::default();
    assert!(s.get_name("never-set").is_none());
}

#[test]
fn timestamp_is_not_covered_by_the_signature() {
    // Two messages with the same user and content but different timestamps
    // carry the same valid signature: the protocol offers no replay
    // protection, by design.
    let keypair = generate_keypair();
    let m = UpdateMessage::signed_message(&keypair, "alice", "v1");
    let pk = keypair.public_key_bytes();
    let restamped = UpdateMessage { utc: m.utc + 1000, ..m.clone() };
    assert_eq!(restamped.verify_signature(pk.as_slice()), Ok(()));
    // Equality, however, is structural over all four fields.
    assert_ne!(restamped, m);
    assert_eq!(m.clone(), m);
}

#[test]
fn provisioning_round_trip() {
    let mut s = ServerData::default();
    let encoded_privkey = s.add_user("operator").expect("system random source failed");
    assert!(s.get_id_key("operator").is_some());

    // The surfaced private half is the base64 of the PKCS#8 document: decode
    // it, rebuild the signing key, and a signed update is accepted.
    let doc = base64::Engine::decode(
        &base64::engine::general_purpose::STANDARD,
        encoded_privkey.as_str(),
    )
    .expect("the surfaced key is printable base64");
    let key = SigningKey::from_pkcs8(doc.as_slice()).expect("the document round-trips");
    let m = UpdateMessage::signed_message(&key, "operator", "hi");
    assert_eq!(s.apply_update_if_valid("greeting", &m), Ok(()));
    assert_eq!(*s.get_name("greeting").expect("the write was accepted"), m);
}

#[test]
fn pkcs8_round_trip_preserves_the_key() {
    let k = generate_keypair();
    let doc: Vec<u8> = k.pkcs8_document().to_vec();
    let k2 = SigningKey::from_pkcs8(doc.as_slice()).expect("the document round-trips");
    // Signing with the reparsed key verifies under the original public half.
    let m = UpdateMessage::signed_message(&k2, "alice", "v1");
    assert_eq!(m.verify_signature(k.public_key_bytes().as_slice()), Ok(()));
}

#[test]
fn rejected_from_pkcs8_reports_err() {
    assert!(SigningKey::from_pkcs8(&[1, 2, 3]).is_err());
}

#[test]
fn last_write_wins_for_keys_and_names() {
    let k1 = generate_keypair();
    let k2 = generate_keypair();
    let mut s = ServerData::default();
    s.add_id("alice", k1.public_key_bytes().as_slice());
    s.add_id("alice", k2.public_key_bytes().as_slice());
    assert_eq!(
        s.get_id_key("alice").expect("registered"),
        k2.public_key_bytes().as_slice()
    );
    // Only the second key now validates alice's messages.
    let m1 = UpdateMessage::signed_message(&k1, "alice", "v1");
    assert_eq!(
        s.apply_update_if_valid("doc", &m1),
        Err(ValidationError::InvalidSignature)
    );
    let m2 = UpdateMessage::signed_message(&k2, "alice", "v2");
    assert_eq!(s.apply_update_if_valid("doc", &m2), Ok(()));
    let m3 = UpdateMessage::signed_message(&k2, "alice", "v3");
    assert_eq!(s.apply_update_if_valid("doc", &m3), Ok(()));
    assert_eq!(*s.get_name("doc").expect("written twice"), m3);
}
