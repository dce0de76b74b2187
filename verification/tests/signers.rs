use nostr::nips::nip19::ToBech32;
use nostr::JsonUtil;
use nostr_auth::error::NostrAuthError;
use nostr_auth::signers::{
    CredentialReading, ExtensionKeyReply, ExtensionSignReply, Nip07Handle, PasskeySession, RawKeySession, ReadOnlyHandle,
};
use nostr_auth::types::{AuthResult, PersistedMethod, SignStep};

const HEX: &str = "aa4fc8665f5696e33db7e1a572e3b0f5b3d615837b0f362dcb1c8068b098c7b4";
const NPUB: &str = "npub14f8usejl26twx0dhuxjh9cas7keav9vr0v8nvtwtrjqx3vycc76qqh9nsy";
const NSEC: &str = "nsec1j4c6269y9w0q2er2xjw8sv2ehyrtfxq3jwgdlxj6qfn8z4gjsq5qfvfk99";
const NSEC_HEX: &str = "9571a568a42b9e05646a349c783159b906b498119390df9a5a02667155128028";

fn unsigned_note_json(author_hex: &str) -> String {
    let author = nostr::PublicKey::from_hex(author_hex).unwrap();
    nostr::EventBuilder::text_note("Hello Nostr!").build(author).as_json()
}

#[test]
fn extension_public_key_replies() {
    let h = Nip07Handle::from_extension_reply(ExtensionKeyReply::Answered(Some(HEX.to_string()))).unwrap();
    assert_eq!(h.public_key.to_hex(), HEX);
    assert_eq!(
        Nip07Handle::from_extension_reply(ExtensionKeyReply::Rejected(Some("User denied".into()))).unwrap_err(),
        NostrAuthError::ExtensionRejected("User denied".into())
    );
    assert_eq!(
        Nip07Handle::from_extension_reply(ExtensionKeyReply::Rejected(None)).unwrap_err(),
        NostrAuthError::ExtensionRejected("unknown error".into())
    );
    assert_eq!(
        Nip07Handle::from_extension_reply(ExtensionKeyReply::Answered(None)).unwrap_err(),
        NostrAuthError::ExtensionRejected("expected string pubkey".into())
    );
    assert!(matches!(
        Nip07Handle::from_extension_reply(ExtensionKeyReply::Answered(Some(NPUB.into()))),
        Err(NostrAuthError::InvalidPublicKey(_))
    ));
}

#[test]
fn extension_sign_outcomes() {
    assert_eq!(
        Nip07Handle::sign_outcome(ExtensionSignReply::InvalidEventJson).unwrap_err(),
        NostrAuthError::SigningFailed("invalid event JSON".into())
    );
    assert_eq!(
        Nip07Handle::sign_outcome(ExtensionSignReply::Rejected(Some("no".into()))).unwrap_err(),
        NostrAuthError::SigningFailed("no".into())
    );
    assert_eq!(
        Nip07Handle::sign_outcome(ExtensionSignReply::Rejected(None)).unwrap_err(),
        NostrAuthError::SigningFailed("rejected".into())
    );
    assert_eq!(
        Nip07Handle::sign_outcome(ExtensionSignReply::StringifyFailed).unwrap_err(),
        NostrAuthError::SigningFailed("could not stringify signed event".into())
    );
    assert_eq!(
        Nip07Handle::sign_outcome(ExtensionSignReply::Signed(Some("{\"id\":1}".into()))).unwrap(),
        "{\"id\":1}"
    );
    assert_eq!(Nip07Handle::sign_outcome(ExtensionSignReply::Signed(None)).unwrap(), "");
}

#[test]
fn extension_nip44_outcomes() {
    assert_eq!(Nip07Handle::nip44_outcome(Ok(Some("ct".into())), true).unwrap(), "ct");
    assert_eq!(
        Nip07Handle::nip44_outcome(Err(None), true).unwrap_err(),
        NostrAuthError::SigningFailed("encrypt failed".into())
    );
    assert_eq!(
        Nip07Handle::nip44_outcome(Err(None), false).unwrap_err(),
        NostrAuthError::SigningFailed("decrypt failed".into())
    );
    assert_eq!(
        Nip07Handle::nip44_outcome(Err(Some("boom".into())), false).unwrap_err(),
        NostrAuthError::SigningFailed("boom".into())
    );
    assert_eq!(
        Nip07Handle::nip44_outcome(Ok(None), true).unwrap_err(),
        NostrAuthError::SigningFailed("expected string ciphertext".into())
    );
    assert_eq!(
        Nip07Handle::nip44_outcome(Ok(None), false).unwrap_err(),
        NostrAuthError::SigningFailed("expected string plaintext".into())
    );
}

#[test]
fn extension_session_signs_through_the_extension() {
    let h = Nip07Handle::from_extension_reply(ExtensionKeyReply::Answered(Some(HEX.to_string()))).unwrap();
    let a = AuthResult::Extension(h);
    assert!(a.can_sign());
    assert_eq!(a.method_name(), "Browser Extension");
    assert!(matches!(a.sign_event("{}"), SignStep::ViaExtension));
    let p = a.to_persisted_session().unwrap();
    assert_eq!(p.public_key_hex, HEX);
    assert_eq!(p.method, PersistedMethod::Extension);
}

#[test]
fn read_only_parse_accepts_hex_npub_and_nprofile() {
    assert_eq!(ReadOnlyHandle::parse(HEX).unwrap().public_key.to_hex(), HEX);
    assert_eq!(ReadOnlyHandle::parse(NPUB).unwrap().public_key.to_hex(), HEX);
    assert_eq!(ReadOnlyHandle::parse(&format!("  {NPUB}\n")).unwrap().public_key.to_hex(), HEX);
    let nprofile = "nprofile1qqsrhuxx8l9ex335q7he0f09aej04zpazpl0ne2cgukyawd24mayt8gppemhxue69uhhytnc9e3k7mf0qyt8wumn8ghj7er2vfshxtnnv9jxkc3wvdhk6tclr7lsh";
    assert_eq!(
        ReadOnlyHandle::parse(nprofile).unwrap().public_key.to_hex(),
        "3bf0c63fcb93463407af97a5e5ee64fa883d107ef9e558472c4eb9aaaefa459d"
    );
}

#[test]
fn read_only_parse_refuses_other_text() {
    let expected = NostrAuthError::InvalidPublicKey(
        "Expected npub1..., nprofile1..., or 64-char hex public key".into(),
    );
    assert_eq!(ReadOnlyHandle::parse("hello").unwrap_err(), expected);
    assert_eq!(ReadOnlyHandle::parse(NSEC).unwrap_err(), expected);
    assert_eq!(ReadOnlyHandle::parse("nprofile1xyz").unwrap_err(), expected);
    assert_eq!(ReadOnlyHandle::parse("   ").unwrap_err(), expected);
}

#[test]
fn raw_key_from_nsec_or_hex() {
    let a = RawKeySession::from_nsec_or_hex(&format!(" {NSEC} ")).unwrap();
    let b = RawKeySession::from_nsec_or_hex(NSEC_HEX).unwrap();
    assert!(a.public_key().same_as(&b.public_key()));
    let expected = nostr::Keys::parse(NSEC_HEX).unwrap().public_key().to_hex();
    assert_eq!(a.public_key().to_hex(), expected);
    assert_eq!(
        RawKeySession::from_nsec_or_hex("nsec1bad").err().unwrap(),
        NostrAuthError::InvalidSecretKey("Expected nsec1... (bech32) or 64-char hex private key".into())
    );
}

#[test]
fn raw_key_signs_an_unsigned_event() {
    let s = RawKeySession::from_nsec_or_hex(NSEC).unwrap();
    let json = unsigned_note_json(&s.public_key().to_hex());
    let signed = s.sign_event(&json).unwrap();
    let event = nostr::Event::from_json(&signed).unwrap();
    assert!(event.verify().is_ok());
    assert_eq!(event.pubkey.to_hex(), s.public_key().to_hex());
    assert_eq!(event.content, "Hello Nostr!");
}

#[test]
fn signing_refuses_text_that_is_not_an_unsigned_event() {
    let s = RawKeySession::from_nsec_or_hex(NSEC).unwrap();
    assert!(matches!(s.sign_event("not json"), Err(NostrAuthError::Serialization(_))));
    assert!(matches!(s.sign_event("{\"kind\":1}"), Err(NostrAuthError::Serialization(_))));
}

#[test]
fn ncryptsec_round_trip_and_wrong_password() {
    let secret = nostr::SecretKey::from_hex(NSEC_HEX).unwrap();
    let enc = nostr::nips::nip49::EncryptedSecretKey::new(
        &secret,
        "correct horse",
        4,
        nostr::nips::nip49::KeySecurity::Unknown,
    )
    .unwrap();
    let text = enc.to_bech32().unwrap();
    let s = RawKeySession::from_ncryptsec(&text, "correct horse").unwrap();
    let expected = nostr::Keys::new(secret).public_key().to_hex();
    assert_eq!(s.public_key().to_hex(), expected);
    assert_eq!(
        RawKeySession::from_ncryptsec(&text, "wrong").err().unwrap(),
        NostrAuthError::WrongPassword
    );
}

#[test]
fn ncryptsec_refuses_malformed_text() {
    assert!(matches!(
        RawKeySession::from_ncryptsec("ncryptsec1notvalid", "pw"),
        Err(NostrAuthError::InvalidNcryptsec(_))
    ));
    assert!(matches!(
        RawKeySession::from_ncryptsec(NSEC, "pw"),
        Err(NostrAuthError::InvalidNcryptsec(_))
    ));
}

#[test]
fn ncryptsec_session_is_not_persisted() {
    let s = RawKeySession::from_nsec_or_hex(NSEC).unwrap();
    let a = AuthResult::Ncryptsec(s);
    assert!(a.can_sign());
    assert_eq!(a.method_name(), "Encrypted Key");
    assert!(a.to_persisted_session().is_none());
    let json = unsigned_note_json(&a.public_key().to_hex());
    match a.sign_event(&json) {
        SignStep::Done(Ok(signed)) => assert!(nostr::Event::from_json(&signed).unwrap().verify().is_ok()),
        other => panic!("unexpected {other:?}"),
    }
}

#[test]
fn passkey_prf_output_must_be_32_bytes() {
    assert_eq!(
        PasskeySession::from_prf_output(vec![1], &[0u8; 5]).err().unwrap(),
        NostrAuthError::PasskeyFailed("PRF output must be 32 bytes, got 5".into())
    );
    assert_eq!(
        PasskeySession::from_prf_output(vec![1], &[0u8; 33]).err().unwrap(),
        NostrAuthError::PasskeyFailed("PRF output must be 32 bytes, got 33".into())
    );
}

#[test]
fn passkey_identity_is_the_same_for_the_same_prf_output() {
    let prf = [42u8; 32];
    let a = PasskeySession::from_prf_output(vec![1, 2, 3], &prf).unwrap();
    let b = PasskeySession::from_prf_output(vec![9, 9], &prf).unwrap();
    assert!(a.public_key().same_as(&b.public_key()));
    assert_eq!(a.credential_id(), &vec![1, 2, 3]);
    let c = PasskeySession::from_prf_output(vec![1, 2, 3], &[43u8; 32]).unwrap();
    assert!(!a.public_key().same_as(&c.public_key()));
}

#[test]
fn passkey_from_credential_readings() {
    assert_eq!(
        PasskeySession::from_credential(CredentialReading::NoRawId).err().unwrap(),
        NostrAuthError::PasskeyFailed("no rawId".into())
    );
    assert_eq!(
        PasskeySession::from_credential(CredentialReading::NoExtensionResults).err().unwrap(),
        NostrAuthError::PasskeyFailed("getClientExtensionResults failed".into())
    );
    assert_eq!(
        PasskeySession::from_credential(CredentialReading::NoPrfResults).err().unwrap(),
        NostrAuthError::PasskeyNotSupported
    );
    assert_eq!(
        PasskeySession::from_credential(CredentialReading::NoPrfFirst).err().unwrap(),
        NostrAuthError::PasskeyFailed("no PRF first output".into())
    );
    let s = PasskeySession::from_credential(CredentialReading::Read {
        credential_id: vec![7, 7],
        prf_output: vec![42u8; 32],
    })
    .unwrap();
    let t = PasskeySession::from_prf_output(vec![7, 7], &[42u8; 32]).unwrap();
    assert!(s.public_key().same_as(&t.public_key()));
}

#[test]
fn passkey_session_signs_and_persists_its_credential() {
    let s = PasskeySession::from_prf_output(vec![1, 2, 3, 250, 251, 252, 253], &[42u8; 32]).unwrap();
    let a = AuthResult::Passkey(s);
    assert_eq!(a.method_name(), "Passkey");
    let p = a.to_persisted_session().unwrap();
    assert_eq!(p.method, PersistedMethod::Passkey);
    assert_eq!(p.passkey_credential_id.as_deref(), Some("AQID-vv8_Q"));
    assert_eq!(p.bunker_uri, None);
    assert_eq!(p.public_key_hex, a.public_key().to_hex());
    let json = unsigned_note_json(&a.public_key().to_hex());
    match a.sign_event(&json) {
        SignStep::Done(Ok(signed)) => {
            let e = nostr::Event::from_json(&signed).unwrap();
            assert!(e.verify().is_ok());
            assert_eq!(e.pubkey.to_hex(), a.public_key().to_hex());
        }
        other => panic!("unexpected {other:?}"),
    }
    assert!(matches!(a.sign_event("[]"), SignStep::Done(Err(NostrAuthError::Serialization(_)))));
}

#[test]
fn read_only_handle_from_str() {
    let h: ReadOnlyHandle = NPUB.parse().unwrap();
    assert_eq!(h.public_key.to_hex(), HEX);
    assert!("not a key".parse::<ReadOnlyHandle>().is_err());
}

#[test]
fn a_missing_extension_is_reported_as_not_found() {
    assert_eq!(
        Nip07Handle::from_extension_reply(ExtensionKeyReply::NoExtension).unwrap_err(),
        NostrAuthError::ExtensionNotFound
    );
}

#[test]
fn signing_keeps_the_unsigned_fields_and_verifies() {
    let s = RawKeySession::from_nsec_or_hex(NSEC).unwrap();
    let author = nostr::PublicKey::from_hex(&s.public_key().to_hex()).unwrap();
    let unsigned = nostr::EventBuilder::text_note("fields")
        .tag(nostr::Tag::hashtag("nostr"))
        .build(author);
    let signed = nostr::Event::from_json(s.sign_event(&unsigned.as_json()).unwrap()).unwrap();
    assert!(signed.verify().is_ok());
    assert_eq!(signed.pubkey, unsigned.pubkey);
    assert_eq!(signed.created_at, unsigned.created_at);
    assert_eq!(signed.kind, unsigned.kind);
    assert_eq!(signed.tags, unsigned.tags);
    assert_eq!(signed.content, unsigned.content);
}

#[test]
fn signing_someone_elses_event_keeps_its_author() {
    let s = RawKeySession::from_nsec_or_hex(NSEC).unwrap();
    let other = nostr::Keys::generate().public_key();
    let unsigned = nostr::EventBuilder::text_note("not mine").build(other);
    let signed = nostr::Event::from_json(s.sign_event(&unsigned.as_json()).unwrap()).unwrap();
    assert_eq!(signed.pubkey, other);
    assert!(signed.verify().is_err());
}

#[test]
fn signing_refuses_an_event_whose_id_is_wrong() {
    let s = RawKeySession::from_nsec_or_hex(NSEC).unwrap();
    let author = nostr::PublicKey::from_hex(&s.public_key().to_hex()).unwrap();
    let mut unsigned = nostr::EventBuilder::text_note("id").build(author);
    unsigned.ensure_id();
    let good = unsigned.as_json();
    assert!(s.sign_event(&good).is_ok());
    let mut value: serde_json::Value = serde_json::from_str(&good).unwrap();
    value["id"] = serde_json::Value::String("00".repeat(32));
    assert!(matches!(s.sign_event(&value.to_string()), Err(NostrAuthError::SigningFailed(_))));
}
