use nostr_auth::error::NostrAuthError;
use nostr_auth::session::{display_npub, AuthAction, AuthEvent, AuthState};
use nostr_auth::signers::{ExtensionKeyReply, Nip07Handle, PasskeySession, RawKeySession, ReadOnlyHandle};
use nostr_auth::storage::{finish_extension_restore, finish_passkey_restore, restore_plan, RestoreStep};
use nostr_auth::types::{AuthResult, PersistedMethod, PersistedSession};

const HEX: &str = "aa4fc8665f5696e33db7e1a572e3b0f5b3d615837b0f362dcb1c8068b098c7b4";
const OTHER_HEX: &str = "3bf0c63fcb93463407af97a5e5ee64fa883d107ef9e558472c4eb9aaaefa459d";
const NPUB: &str = "npub14f8usejl26twx0dhuxjh9cas7keav9vr0v8nvtwtrjqx3vycc76qqh9nsy";
const NSEC: &str = "nsec1j4c6269y9w0q2er2xjw8sv2ehyrtfxq3jwgdlxj6qfn8z4gjsq5qfvfk99";

fn read_only(hex: &str) -> AuthResult {
    AuthResult::ReadOnly(ReadOnlyHandle::parse(hex).unwrap())
}

fn persisted(method: PersistedMethod, bunker: Option<&str>, cred: Option<&str>) -> PersistedSession {
    PersistedSession::new(HEX.to_string(), method, bunker.map(str::to_string), cred.map(str::to_string))
}

#[test]
fn read_only_session_is_restored_directly() {
    match restore_plan(&persisted(PersistedMethod::ReadOnly, None, None), 30) {
        Ok(RestoreStep::Restored(AuthResult::ReadOnly(h))) => assert_eq!(h.public_key.to_hex(), HEX),
        _ => panic!("expected a restored read-only session"),
    }
}

#[test]
fn extension_session_is_confirmed_against_the_stored_key() {
    let stored = match restore_plan(&persisted(PersistedMethod::Extension, None, None), 30) {
        Ok(RestoreStep::ConfirmExtension { stored }) => stored,
        _ => panic!("expected an extension confirmation"),
    };
    assert_eq!(stored.to_hex(), HEX);
    let same = Nip07Handle::from_extension_reply(ExtensionKeyReply::Answered(Some(HEX.into()))).unwrap();
    match finish_extension_restore(&stored, same) {
        Ok(AuthResult::Extension(h)) => assert_eq!(h.public_key.to_hex(), HEX),
        _ => panic!("expected the extension session"),
    }
    let other = Nip07Handle::from_extension_reply(ExtensionKeyReply::Answered(Some(OTHER_HEX.into()))).unwrap();
    assert_eq!(
        finish_extension_restore(&stored, other).err().unwrap(),
        NostrAuthError::ExtensionRejected(
            "Extension returned a different public key than the stored session".into()
        )
    );
}

#[test]
fn bunker_session_reconnects_through_its_uri() {
    match restore_plan(&persisted(PersistedMethod::Bunker, Some("bunker://x?relay=wss://r"), None), 45) {
        Ok(RestoreStep::ConnectBunker { uri, timeout_secs }) => {
            assert_eq!(uri, "bunker://x?relay=wss://r");
            assert_eq!(timeout_secs, 45);
        }
        _ => panic!("expected a bunker reconnection"),
    }
    assert_eq!(
        restore_plan(&persisted(PersistedMethod::Bunker, None, None), 30).err().unwrap(),
        NostrAuthError::InvalidBunkerUri("no URI stored".into())
    );
}

#[test]
fn passkey_session_authenticates_with_its_credential() {
    match restore_plan(&persisted(PersistedMethod::Passkey, None, Some("AQID-vv8_Q")), 30) {
        Ok(RestoreStep::AuthenticatePasskey { credential_id, stored }) => {
            assert_eq!(credential_id, vec![1, 2, 3, 250, 251, 252, 253]);
            assert_eq!(stored.to_hex(), HEX);
        }
        _ => panic!("expected a passkey authentication"),
    }
    assert_eq!(
        restore_plan(&persisted(PersistedMethod::Passkey, None, None), 30).err().unwrap(),
        NostrAuthError::PasskeyFailed("no credential ID stored".into())
    );
    assert!(matches!(
        restore_plan(&persisted(PersistedMethod::Passkey, None, Some("AQID+vv8/Q==")), 30),
        Err(NostrAuthError::PasskeyFailed(_))
    ));
}

#[test]
fn passkey_restore_needs_the_same_key() {
    let s = PasskeySession::from_prf_output(vec![5], &[42u8; 32]).unwrap();
    let stored = s.public_key();
    match finish_passkey_restore(&stored, s.clone()) {
        Ok(AuthResult::Passkey(p)) => assert!(p.public_key().same_as(&stored)),
        _ => panic!("expected the passkey session"),
    }
    let elsewhere = ReadOnlyHandle::parse(HEX).unwrap().public_key;
    assert_eq!(
        finish_passkey_restore(&elsewhere, s).err().unwrap(),
        NostrAuthError::PasskeyFailed(
            "Passkey derived a different public key than the stored session".into()
        )
    );
}

#[test]
fn a_stored_key_that_is_not_hex_is_refused() {
    let bad = PersistedSession::new(NPUB.to_string(), PersistedMethod::ReadOnly, None, None);
    assert!(matches!(restore_plan(&bad, 30), Err(NostrAuthError::InvalidPublicKey(_))));
}

#[test]
fn what_is_persisted_is_restored() {
    let a = read_only(HEX);
    let p = a.to_persisted_session().unwrap();
    match restore_plan(&p, 30) {
        Ok(RestoreStep::Restored(r)) => assert!(r.public_key().same_as(&a.public_key())),
        _ => panic!("expected a restored session"),
    }
    let s = PasskeySession::from_prf_output(vec![9, 8, 7, 6], &[7u8; 32]).unwrap();
    let pk = s.public_key();
    let p = AuthResult::Passkey(s).to_persisted_session().unwrap();
    match restore_plan(&p, 30) {
        Ok(RestoreStep::AuthenticatePasskey { credential_id, stored }) => {
            assert_eq!(credential_id, vec![9, 8, 7, 6]);
            assert!(stored.same_as(&pk));
        }
        _ => panic!("expected a passkey authentication"),
    }
}

#[test]
fn a_fresh_state_is_logged_out() {
    let s = AuthState::new();
    assert!(!s.is_authenticated());
    assert!(s.public_key().is_none());
    assert!(s.npub().is_none());
    assert!(!s.show_modal);
    assert!(!s.restoring);
}

#[test]
fn mounting_with_a_stored_session_starts_restoring() {
    let stored = persisted(PersistedMethod::ReadOnly, None, None);
    let (s, action) = AuthState::new().step(true, AuthEvent::Mounted(Some(stored.clone())));
    assert!(s.restoring);
    match action {
        AuthAction::StartRestore(p) => assert_eq!(p, stored),
        _ => panic!("expected a restore"),
    }
    let (s, action) = s.step(true, AuthEvent::RestoreFinished(Ok(read_only(HEX))));
    assert!(!s.restoring);
    assert!(s.is_authenticated());
    assert!(matches!(action, AuthAction::Nothing));
    assert_eq!(s.npub().as_deref(), Some(NPUB));
}

#[test]
fn a_failed_restore_forgets_the_stored_session() {
    let stored = persisted(PersistedMethod::Extension, None, None);
    let (s, _) = AuthState::new().step(true, AuthEvent::Mounted(Some(stored)));
    let (s, action) = s.step(true, AuthEvent::RestoreFinished(Err(NostrAuthError::ExtensionNotFound)));
    assert!(!s.restoring);
    assert!(!s.is_authenticated());
    assert!(matches!(action, AuthAction::Forget));
}

#[test]
fn without_persistence_nothing_is_restored_or_stored() {
    let stored = persisted(PersistedMethod::ReadOnly, None, None);
    let (s, action) = AuthState::new().step(false, AuthEvent::Mounted(Some(stored)));
    assert!(!s.restoring);
    assert!(matches!(action, AuthAction::Nothing));
    let (s, action) = s.step(false, AuthEvent::Authenticated(read_only(HEX)));
    assert!(s.is_authenticated());
    assert!(matches!(action, AuthAction::Nothing));
    let (_, action) = AuthState::new().step(true, AuthEvent::Mounted(None));
    assert!(matches!(action, AuthAction::Nothing));
}

#[test]
fn login_closes_the_modal_and_stores_the_session() {
    let (s, action) = AuthState::new().step(true, AuthEvent::ShowLogin);
    assert!(s.show_modal);
    assert!(matches!(action, AuthAction::Nothing));
    let (s, action) = s.step(true, AuthEvent::Authenticated(read_only(HEX)));
    assert!(!s.show_modal);
    assert_eq!(s.public_key().unwrap().to_hex(), HEX);
    match action {
        AuthAction::Store(p) => {
            assert_eq!(p.public_key_hex, HEX);
            assert_eq!(p.method, PersistedMethod::ReadOnly);
        }
        _ => panic!("expected the session to be stored"),
    }
}

#[test]
fn an_in_memory_key_is_never_stored() {
    let a = AuthResult::Ncryptsec(RawKeySession::from_nsec_or_hex(NSEC).unwrap());
    let (s, action) = AuthState::new().step(true, AuthEvent::Authenticated(a));
    assert!(s.is_authenticated());
    assert!(matches!(action, AuthAction::Nothing));
}

#[test]
fn logout_forgets_and_close_hides() {
    let (s, _) = AuthState::new().step(true, AuthEvent::Authenticated(read_only(HEX)));
    let (s, action) = s.step(true, AuthEvent::ShowLogin);
    assert!(matches!(action, AuthAction::Nothing));
    let (s, action) = s.step(true, AuthEvent::CloseModal);
    assert!(!s.show_modal);
    assert!(matches!(action, AuthAction::Nothing));
    let (s, action) = s.step(true, AuthEvent::Logout);
    assert!(!s.is_authenticated());
    assert!(matches!(action, AuthAction::Forget));
}

#[test]
fn the_shown_npub_is_accepted_back_by_read_only_login() {
    let pk = ReadOnlyHandle::parse(OTHER_HEX).unwrap().public_key;
    let shown = display_npub(&pk);
    assert_eq!(shown.len(), 63);
    assert!(shown.starts_with("npub1"));
    let back = ReadOnlyHandle::parse(&shown).unwrap().public_key;
    assert!(back.same_as(&pk));
}

#[test]
fn a_pasted_raw_key_is_a_secret_key_session_and_never_stored() {
    let a = AuthResult::RawNsec(RawKeySession::from_nsec_or_hex(NSEC).unwrap());
    assert_eq!(a.method_name(), "Secret Key");
    assert!(a.can_sign());
    assert!(a.to_persisted_session().is_none());
    let (s, action) = AuthState::new().step(true, AuthEvent::Authenticated(a));
    assert!(s.is_authenticated());
    assert!(matches!(action, AuthAction::Nothing));
}
