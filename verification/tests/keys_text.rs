use nostr_auth::keys::PublicKey;
use nostr_auth::platform::{os_from_user_agent, Os};
use nostr_auth::session::display_npub;
use nostr_auth::signers::{PasskeySession, RawKeySession, ReadOnlyHandle};
use nostr_auth::text::{chars_of, contains, decimal_text, same_chars, slice_chars, starts_with, string_of, text_is, trim};

const HEX: &str = "aa4fc8665f5696e33db7e1a572e3b0f5b3d615837b0f362dcb1c8068b098c7b4";
const NPUB: &str = "npub14f8usejl26twx0dhuxjh9cas7keav9vr0v8nvtwtrjqx3vycc76qqh9nsy";
const NPROFILE: &str = "nprofile1qqsrhuxx8l9ex335q7he0f09aej04zpazpl0ne2cgukyawd24mayt8gppemhxue69uhhytnc9e3k7mf0qyt8wumn8ghj7er2vfshxtnnv9jxkc3wvdhk6tclr7lsh";

fn key(s: &str) -> PublicKey {
    ReadOnlyHandle::parse(s).unwrap().public_key
}

#[test]
fn public_key_hex_round_trip() {
    let pk = key(HEX);
    assert_eq!(pk.to_hex(), HEX);
    let again = key(&pk.to_hex());
    assert!(again.same_as(&pk));
}

#[test]
fn public_key_hex_accepts_upper_case_and_writes_lower_case() {
    let pk = key(&HEX.to_uppercase());
    assert_eq!(pk.to_hex(), HEX);
}

#[test]
fn public_key_hex_refuses_wrong_length_and_bad_digits() {
    assert!(ReadOnlyHandle::parse(&HEX[..63]).is_err());
    assert!(ReadOnlyHandle::parse(&format!("{HEX}00")).is_err());
    assert!(ReadOnlyHandle::parse(&format!("{}g", &HEX[..63])).is_err());
    assert!(ReadOnlyHandle::parse("").is_err());
}

#[test]
fn public_key_from_bytes_needs_32() {
    assert!(PublicKey::from_bytes(&[7u8; 31]).is_none());
    assert!(PublicKey::from_bytes(&[7u8; 33]).is_none());
    let pk = PublicKey::from_bytes(&[7u8; 32]).unwrap();
    assert_eq!(pk.to_array(), [7u8; 32]);
    assert_eq!(pk.to_hex(), "07".repeat(32));
    assert!(!pk.same_as(&PublicKey::from_array([8u8; 32])));
    assert!(pk.same_as(&PublicKey::from_array([7u8; 32])));
}

#[test]
fn npub_encoding_and_decoding() {
    let pk = key(HEX);
    assert_eq!(display_npub(&pk), NPUB);
    let back = key(NPUB);
    assert!(back.same_as(&pk));
}

#[test]
fn nprofile_yields_its_public_key() {
    let pk = key(NPROFILE);
    assert_eq!(pk.to_hex(), "3bf0c63fcb93463407af97a5e5ee64fa883d107ef9e558472c4eb9aaaefa459d");
}

#[test]
fn secret_key_parsing() {
    let nsec = "nsec1j4c6269y9w0q2er2xjw8sv2ehyrtfxq3jwgdlxj6qfn8z4gjsq5qfvfk99";
    let hex = "9571a568a42b9e05646a349c783159b906b498119390df9a5a02667155128028";
    let a = RawKeySession::from_nsec_or_hex(nsec).unwrap();
    let b = RawKeySession::from_nsec_or_hex(hex).unwrap();
    assert!(a.public_key().same_as(&b.public_key()));
    assert!(RawKeySession::from_nsec_or_hex(&"00".repeat(32)).is_err());
    assert!(RawKeySession::from_nsec_or_hex(&"ff".repeat(32)).is_err());
    assert!(RawKeySession::from_nsec_or_hex(NPUB).is_err());
}

#[test]
fn secret_key_one_derives_the_generator() {
    let one = format!("{}01", "00".repeat(31));
    let k = RawKeySession::from_nsec_or_hex(&one).unwrap();
    assert_eq!(
        k.public_key().to_hex(),
        "79be667ef9dcbbac55a06295ce870b07029bfcdb2dce28d959f2815b16f81798"
    );
}

#[test]
fn passkey_key_is_the_sha256_of_the_prf_output() {
    // SHA-256 of 32 zero bytes is 66687aad…2925; the passkey secret is that digest.
    let s = PasskeySession::from_prf_output(vec![1, 2, 3], &[0u8; 32]).unwrap();
    let raw = RawKeySession::from_nsec_or_hex(
        "66687aadf862bd776c8fc18b8e9f8e20089714856ee233b3902a591d0d5f2925",
    )
    .unwrap();
    assert!(s.public_key().same_as(&raw.public_key()));
}

#[test]
fn credential_key_is_unpadded_url_safe_base64() {
    assert_eq!(PasskeySession::credential_key(&[1, 2, 3, 250, 251, 252, 253]), "AQID-vv8_Q");
    assert_eq!(PasskeySession::credential_key(&[]), "");
    assert_eq!(PasskeySession::credential_key(&[0xff, 0xff, 0xfe]), "___-");
}

#[test]
fn trim_removes_surrounding_whitespace_only() {
    let t = trim(&chars_of("  \t a b \n"));
    assert_eq!(string_of(&t), "a b");
    assert_eq!(string_of(&trim(&chars_of("   "))), "");
    assert_eq!(string_of(&trim(&chars_of("\u{3000}x\u{3000}"))), "x");
    assert_eq!(string_of(&trim(&chars_of("xy"))), "xy");
}

#[test]
fn contains_finds_substrings() {
    let h = chars_of("mozilla (iphone; cpu)");
    assert!(contains(&h, &chars_of("iphone")));
    assert!(contains(&h, &chars_of("")));
    assert!(!contains(&h, &chars_of("android")));
    assert!(!contains(&chars_of("ab"), &chars_of("abc")));
}

#[test]
fn char_helpers() {
    let v = chars_of("héllo");
    assert_eq!(v.len(), 5);
    assert_eq!(string_of(&slice_chars(&v, 1, 3)), "él");
    assert!(starts_with(&v, &chars_of("hé")));
    assert!(!starts_with(&v, &chars_of("hello")));
    assert!(same_chars(&v, &chars_of("héllo")));
    assert!(!same_chars(&v, &chars_of("héll")));
    assert!(text_is("ack", "ack"));
    assert!(!text_is("ack", "Ack"));
}

#[test]
fn decimal_text_formats_like_display() {
    for n in [0usize, 5, 9, 10, 31, 33, 100, 4096, usize::MAX] {
        assert_eq!(decimal_text(n), n.to_string());
    }
}

#[test]
fn user_agent_is_read_case_insensitively() {
    assert_eq!(os_from_user_agent("Mozilla/5.0 (MACINTOSH; Intel Mac OS X)"), Os::Apple);
    assert_eq!(os_from_user_agent("Mozilla/5.0 (Linux; ANDROID 14)"), Os::Android);
}
