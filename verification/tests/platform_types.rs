use nostr_auth::error::{join, text, text_or_else, NostrAuthError};
use nostr_auth::platform::{os_from_ua_platform, os_from_user_agent, Os, Platform};
use nostr_auth::signers::ReadOnlyHandle;
use nostr_auth::types::{AuthResult, LoginMethod, NostrAuthConfig, PersistedMethod, SignStep};

const HEX: &str = "aa4fc8665f5696e33db7e1a572e3b0f5b3d615837b0f362dcb1c8068b098c7b4";

#[test]
fn login_methods_in_display_order() {
    assert_eq!(
        LoginMethod::all(),
        vec![
            LoginMethod::Extension,
            LoginMethod::Bunker,
            LoginMethod::Passkey,
            LoginMethod::ReadOnly,
            LoginMethod::Ncryptsec,
        ]
    );
}

#[test]
fn login_method_names() {
    let names: Vec<&str> = LoginMethod::all().iter().map(|m| m.name()).collect();
    assert_eq!(
        names,
        vec!["Browser Extension", "Nostr Connect", "Passkey", "Read-Only", "Encrypted Key"]
    );
}

#[test]
fn config_defaults() {
    let c = NostrAuthConfig::default();
    assert!(c.persist_session);
    assert_eq!(c.storage_key, "leptos_nostr_auth_session");
    assert!(c.close_on_backdrop_click);
    assert!(c.close_on_escape);
    assert_eq!(c.allowed_methods, LoginMethod::all());
    assert_eq!(c.bunker_timeout_secs, 30);
    assert_eq!(c.rp_id, None);
    assert_eq!(c.rp_name, "Nostr App");
}

#[test]
fn config_struct_update_keeps_defaults() {
    let c = NostrAuthConfig {
        storage_key: "my_app_nostr_session".to_string(),
        rp_id: Some("myapp.com".into()),
        ..Default::default()
    };
    assert_eq!(c.storage_key, "my_app_nostr_session");
    assert_eq!(c.rp_id.as_deref(), Some("myapp.com"));
    assert_eq!(c.rp_name, "Nostr App");
    assert_eq!(c.bunker_timeout_secs, 30);
}

#[test]
fn server_default_assumes_every_capability() {
    let p = Platform::server_default();
    assert_eq!(p.os, Os::Other);
    assert!(p.has_nostr_extension);
    assert!(p.supports_webauthn);
}

#[test]
fn client_hints_platform_names() {
    assert_eq!(os_from_ua_platform("Android"), Some(Os::Android));
    assert_eq!(os_from_ua_platform("iOS"), Some(Os::Apple));
    assert_eq!(os_from_ua_platform("macOS"), Some(Os::Apple));
    assert_eq!(os_from_ua_platform("Windows"), Some(Os::Other));
    assert_eq!(os_from_ua_platform("Linux"), Some(Os::Other));
    assert_eq!(os_from_ua_platform(""), None);
}

#[test]
fn user_agent_strings() {
    let iphone = "Mozilla/5.0 (iPhone; CPU iPhone OS 17_0 like Mac OS X) AppleWebKit/605.1.15";
    let ipad_desktop = "Mozilla/5.0 (Macintosh; Intel Mac OS X 10_15_7) AppleWebKit/605.1.15";
    let android = "Mozilla/5.0 (Linux; Android 14; Pixel 8) AppleWebKit/537.36";
    let windows = "Mozilla/5.0 (Windows NT 10.0; Win64; x64) AppleWebKit/537.36";
    assert_eq!(os_from_user_agent(iphone), Os::Apple);
    assert_eq!(os_from_user_agent(ipad_desktop), Os::Apple);
    assert_eq!(os_from_user_agent("Mozilla/5.0 (iPad; CPU OS 16_0)"), Os::Apple);
    assert_eq!(os_from_user_agent(android), Os::Android);
    assert_eq!(os_from_user_agent(windows), Os::Other);
    assert_eq!(os_from_user_agent(""), Os::Other);
}

#[test]
fn android_wins_over_apple_markers() {
    assert_eq!(os_from_user_agent("Android on a Macintosh with an iPad"), Os::Android);
}

#[test]
fn platform_from_browser_prefers_client_hints() {
    let p = Platform::from_browser(false, Some("Android"), "Mozilla/5.0 (Macintosh)", true);
    assert_eq!(p, Platform { os: Os::Android, has_nostr_extension: false, supports_webauthn: true });
    let q = Platform::from_browser(true, Some(""), "Mozilla/5.0 (iPhone)", false);
    assert_eq!(q, Platform { os: Os::Apple, has_nostr_extension: true, supports_webauthn: false });
    let r = Platform::from_browser(true, None, "Mozilla/5.0 (X11; Linux x86_64)", true);
    assert_eq!(r.os, Os::Other);
}

#[test]
fn error_messages() {
    let cases = [
        (NostrAuthError::ExtensionNotFound, "Browser extension (window.nostr) not found"),
        (NostrAuthError::ExtensionRejected("denied".into()), "Extension request rejected: denied"),
        (NostrAuthError::InvalidPublicKey("x".into()), "Invalid public key format: x"),
        (NostrAuthError::InvalidBunkerUri("y".into()), "Invalid bunker URI: y"),
        (NostrAuthError::BunkerConnectionFailed("z".into()), "Bunker connection failed: z"),
        (NostrAuthError::BunkerTimeout, "Bunker connection timed out"),
        (NostrAuthError::PasskeyFailed("p".into()), "Passkey operation failed: p"),
        (NostrAuthError::PasskeyNotSupported, "Browser does not support WebAuthn PRF extension"),
        (NostrAuthError::InvalidNcryptsec("n".into()), "Invalid ncryptsec string: n"),
        (NostrAuthError::WrongPassword, "Wrong password for ncryptsec"),
        (NostrAuthError::InvalidSecretKey("s".into()), "Invalid secret key: s"),
        (NostrAuthError::SigningFailed("f".into()), "Signing failed: f"),
        (NostrAuthError::Serialization("j".into()), "Serialization error: j"),
    ];
    for (e, m) in cases {
        assert_eq!(e.message(), m);
    }
}

#[test]
fn text_helpers() {
    assert_eq!(text("abc"), "abc");
    assert_eq!(join("ab", "cd"), "abcd");
    assert_eq!(text_or_else(Some("x".into()), "d"), "x");
    assert_eq!(text_or_else(None, "d"), "d");
}

#[test]
fn read_only_session_cannot_sign() {
    let a = AuthResult::ReadOnly(ReadOnlyHandle::parse(HEX).unwrap());
    assert!(!a.can_sign());
    assert_eq!(a.method_name(), "Read-Only");
    assert_eq!(a.public_key().to_hex(), HEX);
    match a.sign_event("{}") {
        SignStep::Done(Err(e)) => {
            assert_eq!(e, NostrAuthError::SigningFailed("Read-only session cannot sign events".into()))
        }
        other => panic!("unexpected {other:?}"),
    }
}

#[test]
fn read_only_session_persists_its_key_only() {
    let a = AuthResult::ReadOnly(ReadOnlyHandle::parse(HEX).unwrap());
    let p = a.to_persisted_session().unwrap();
    assert_eq!(p.public_key_hex, HEX);
    assert_eq!(p.method, PersistedMethod::ReadOnly);
    assert_eq!(p.bunker_uri, None);
    assert_eq!(p.passkey_credential_id, None);
}

#[test]
fn raw_key_paste_is_opt_in() {
    assert_eq!(LoginMethod::RawNsec.name(), "Secret Key");
    assert!(!LoginMethod::all().contains(&LoginMethod::RawNsec));
}
