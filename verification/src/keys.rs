use nostr::nips::nip19::{FromBech32, ToBech32};
use nostr::JsonUtil;
use vstd::prelude::*;

use crate::text::{push_char, trimmed};

verus! {


/// The value of a hexadecimal digit, for a character that is one.
pub open spec fn hex_value(c: char) -> int {
    if '0' <= c && c <= '9' {
        c as int - '0' as int
    } else if 'a' <= c && c <= 'f' {
        c as int - 'a' as int + 10
    } else {
        c as int - 'A' as int + 10
    }
}

/// `0-9`, `a-f` or `A-F`.
pub open spec fn is_hex_digit(c: char) -> bool {
    ('0' <= c && c <= '9') || ('a' <= c && c <= 'f') || ('A' <= c && c <= 'F')
}

/// A string of exactly 64 hexadecimal digits: the text form of a 32-byte key.
pub open spec fn is_key_hex(s: Seq<char>) -> bool {
    &&& s.len() == 64
    &&& forall|i: int| 0 <= i < 64 ==> #[trigger] is_hex_digit(s[i])
}

/// The 32 bytes that a 64-digit hexadecimal string spells, two digits per byte.
pub open spec fn decode_key_hex(s: Seq<char>) -> Seq<u8> {
    Seq::new(32, |i: int| (hex_value(s[2 * i]) * 16 + hex_value(s[2 * i + 1])) as u8)
}

/// The lower-case hexadecimal digit for a nibble.
pub open spec fn lower_hex_digit(n: int) -> char {
    if n < 10 {
        ('0' as int + n) as char
    } else {
        ('a' as int + n - 10) as char
    }
}

/// Lower-case hexadecimal text of a byte string, two digits per byte.
pub open spec fn hex_lower(bytes: Seq<u8>) -> Seq<char>
    decreases bytes.len(),
{
    if bytes.len() == 0 {
        Seq::empty()
    } else {
        let b = bytes.last();
        hex_lower(bytes.drop_last()) + seq![lower_hex_digit(b as int / 16), lower_hex_digit(b as int % 16)]
    }
}

/// An x-only secp256k1 public key, held as its 32 bytes.
#[derive(Clone, Copy, Debug)]
pub struct PublicKey {
    bytes: [u8; 32],
}

impl View for PublicKey {
    type V = Seq<u8>;

    closed spec fn view(&self) -> Seq<u8> {
        self.bytes@
    }
}

impl PublicKey {
    /// Every key is 32 bytes long.
    pub proof fn lemma_len(self)
        ensures
            self@.len() == 32,
    {
    }

    /// The key whose bytes are these.
    pub fn from_array(bytes: [u8; 32]) -> (pk: PublicKey)
        ensures
            pk@ == bytes@,
    {
        PublicKey { bytes }
    }

    /// The key whose bytes are `bytes`, where there are exactly 32 of them.
    pub fn from_bytes(bytes: &[u8]) -> (r: Option<PublicKey>)
        ensures
            r is Some <==> bytes@.len() == 32,
            r matches Some(pk) ==> pk@ == bytes@,
    {
        if bytes.len() != 32 {
            return None;
        }
        let mut buf = [0u8; 32];
        let mut i: usize = 0;
        while i < 32
            invariant
                bytes@.len() == 32,
                0 <= i <= 32,
                forall|j: int| 0 <= j < i ==> buf@[j] == bytes@[j],
            decreases 32 - i,
        {
            buf[i] = bytes[i];
            i = i + 1;
        }
        assert(buf@ =~= bytes@);
        Some(PublicKey { bytes: buf })
    }

    /// The 32 bytes of the key.
    pub fn to_array(&self) -> (b: [u8; 32])
        ensures
            b@ == self@,
    {
        self.bytes
    }

    /// Whether two keys are the same key.
    pub fn same_as(&self, other: &PublicKey) -> (r: bool)
        ensures
            r == (self@ == other@),
    {
        let mut i: usize = 0;
        while i < 32
            invariant
                0 <= i <= 32,
                forall|j: int| 0 <= j < i ==> self.bytes@[j] == other.bytes@[j],
            decreases 32 - i,
        {
            if self.bytes[i] != other.bytes[i] {
                return false;
            }
            i = i + 1;
        }
        assert(self.bytes@ =~= other.bytes@);
        true
    }

    /// The key as 64 lower-case hexadecimal digits.
    pub fn to_hex(&self) -> (s: String)
        ensures
            s@ == hex_lower(self@),
    {
        let mut s = String::new();
        let mut i: usize = 0;
        while i < 32
            invariant
                0 <= i <= 32,
                s@ == hex_lower(self.bytes@.subrange(0, i as int)),
            decreases 32 - i,
        {
            let b = self.bytes[i];
            push_char(&mut s, lower_hex_char(b / 16));
            push_char(&mut s, lower_hex_char(b % 16));
            assert(self.bytes@.subrange(0, i + 1).drop_last() =~= self.bytes@.subrange(0, i as int));
            i = i + 1;
        }
        assert(self.bytes@.subrange(0, 32) =~= self.bytes@);
        s
    }
}

proof fn lemma_hex_lower_shape(b: Seq<u8>)
    ensures
        hex_lower(b).len() == 2 * b.len(),
        forall|i: int|
            0 <= i < b.len() ==> hex_lower(b)[2 * i] == lower_hex_digit(b[i] as int / 16) && hex_lower(
                b,
            )[2 * i + 1] == lower_hex_digit(b[i] as int % 16),
    decreases b.len(),
{
    if b.len() > 0 {
        let p = b.drop_last();
        lemma_hex_lower_shape(p);
        assert forall|i: int| 0 <= i < b.len() implies hex_lower(b)[2 * i] == lower_hex_digit(
            b[i] as int / 16,
        ) && hex_lower(b)[2 * i + 1] == lower_hex_digit(b[i] as int % 16) by {
            if i < p.len() {
                assert(b[i] == p[i]);
            }
        }
    }
}

proof fn lemma_lower_hex_digit(n: int)
    requires
        0 <= n < 16,
    ensures
        is_hex_digit(lower_hex_digit(n)),
        hex_value(lower_hex_digit(n)) == n,
{
}

/// The hexadecimal text of a 32-byte key spells that key again.
pub proof fn lemma_key_hex_roundtrip(b: Seq<u8>)
    requires
        b.len() == 32,
    ensures
        is_key_hex(hex_lower(b)),
        decode_key_hex(hex_lower(b)) == b,
{
    lemma_hex_lower_shape(b);
    let h = hex_lower(b);
    assert forall|i: int| 0 <= i < 64 implies #[trigger] is_hex_digit(h[i]) by {
        let j = i / 2;
        lemma_lower_hex_digit(b[j] as int / 16);
        lemma_lower_hex_digit(b[j] as int % 16);
        if i % 2 == 0 {
            assert(i == 2 * j);
        } else {
            assert(i == 2 * j + 1);
        }
    }
    assert forall|i: int| 0 <= i < 32 implies #[trigger] decode_key_hex(h)[i] == b[i] by {
        lemma_lower_hex_digit(b[i] as int / 16);
        lemma_lower_hex_digit(b[i] as int % 16);
    }
    assert(decode_key_hex(h) =~= b);
}

fn lower_hex_char(n: u8) -> (c: char)
    requires
        n < 16,
    ensures
        c == lower_hex_digit(n as int),
{
    if n < 10 {
        (n + 48) as char
    } else {
        (n + 87) as char
    }
}

/// Big-endian value of a byte string.
pub open spec fn be_value(b: Seq<u8>) -> nat
    decreases b.len(),
{
    if b.len() == 0 {
        0
    } else {
        be_value(b.drop_last()) * 256 + b.last() as nat
    }
}

/// The order of the secp256k1 group.
pub open spec fn secp256k1_order() -> nat {
    0xFFFFFFFFFFFFFFFFFFFFFFFFFFFFFFFEBAAEDCE6AF48A03BBFD25E8CD0364141nat
}

/// 32 bytes whose big-endian value is a non-zero scalar below the group order:
/// what secp256k1 accepts as a secret key.
pub open spec fn is_valid_secret(b: Seq<u8>) -> bool {
    &&& b.len() == 32
    &&& 0 < be_value(b)
    &&& be_value(b) < secp256k1_order()
}

/// The x-only public key that secp256k1 derives from a secret key.
pub uninterp spec fn xonly_public_key(secret: Seq<u8>) -> Seq<u8>;

/// The bech32 `npub` text of a public key.
pub uninterp spec fn npub_text(key: Seq<u8>) -> Seq<char>;

/// The key that a bech32 `npub` text spells, if the text is one.
pub uninterp spec fn npub_key(text: Seq<char>) -> Option<Seq<u8>>;

/// The public key inside a bech32 `nprofile` text, if the text is one.
pub uninterp spec fn nprofile_key(text: Seq<char>) -> Option<Seq<u8>>;

/// The payload of a bech32 `nsec` text, if the text has that prefix and decodes.
pub uninterp spec fn nsec_payload(text: Seq<char>) -> Option<Seq<u8>>;

/// A secp256k1 secret key, held as its 32 bytes.
#[derive(Clone, Copy)]
pub struct SecretKey {
    bytes: [u8; 32],
}

impl View for SecretKey {
    type V = Seq<u8>;

    closed spec fn view(&self) -> Seq<u8> {
        self.bytes@
    }
}

impl SecretKey {
    #[verifier::type_invariant]
    closed spec fn is_valid(self) -> bool {
        is_valid_secret(self.bytes@)
    }
}

/// `nostr::PublicKey::from_hex`: succeeds exactly on 64 hexadecimal digits (the
/// `hex` crate's `decode_to_slice` into 32 bytes) and yields the bytes they spell.
#[verifier::external_body]
pub(crate) fn public_key_from_hex(s: &str) -> (r: Result<PublicKey, nostr::key::Error>)
    ensures
        r is Ok <==> is_key_hex(s@),
        r matches Ok(pk) ==> pk@ == decode_key_hex(s@),
{
    match nostr::PublicKey::from_hex(s) {
        Ok(pk) => Ok(PublicKey::from_array(pk.to_bytes())),
        Err(e) => Err(e),
    }
}

/// `nostr::nips::nip19::ToBech32::to_bech32` on a public key: the `npub` text.
/// For public keys its error type is `Infallible`, so a text always comes back:
/// `npub1`, 52 data characters and a 6-character checksum from the bech32
/// alphabet (no whitespace), which decodes (`from_bech32`) to the key again.
#[verifier::external_body]
pub(crate) fn npub(pk: &PublicKey) -> (r: String)
    ensures
        r@ == npub_text(pk@),
        npub_key(r@) == Some(pk@),
        r@.len() == 63,
        trimmed(r@) == r@,
{
    match nostr::PublicKey::from_byte_array(pk.to_array()).to_bech32() {
        Ok(text) => text,
        Err(never) => match never {},
    }
}

/// `nostr::nips::nip19::FromBech32::from_bech32` for a public key: decodes an
/// `npub` text.
#[verifier::external_body]
pub(crate) fn public_key_from_npub(s: &str) -> (r: Result<PublicKey, nostr::nips::nip19::Error>)
    ensures
        r is Ok <==> npub_key(s@) is Some,
        r matches Ok(pk) ==> npub_key(s@) == Some(pk@),
{
    match nostr::PublicKey::from_bech32(s) {
        Ok(pk) => Ok(PublicKey::from_array(pk.to_bytes())),
        Err(e) => Err(e),
    }
}

/// `nostr::nips::nip19::Nip19Profile::from_bech32`, keeping the profile's public key.
#[verifier::external_body]
pub(crate) fn public_key_from_nprofile(s: &str) -> (r: Result<PublicKey, nostr::nips::nip19::Error>)
    ensures
        r is Ok <==> nprofile_key(s@) is Some,
        r matches Ok(pk) ==> nprofile_key(s@) == Some(pk@),
{
    match nostr::nips::nip19::Nip19Profile::from_bech32(s) {
        Ok(profile) => Ok(PublicKey::from_array(profile.public_key.to_bytes())),
        Err(e) => Err(e),
    }
}

/// `nostr::SecretKey::from_slice`: secp256k1 accepts exactly 32 bytes whose
/// big-endian value is a non-zero scalar below the group order.
#[verifier::external_body]
pub(crate) fn secret_key_from_slice(b: &[u8]) -> (r: Result<SecretKey, nostr::key::Error>)
    ensures
        r is Ok <==> is_valid_secret(b@),
        r matches Ok(k) ==> k@ == b@,
{
    match nostr::SecretKey::from_slice(b) {
        Ok(k) => Ok(SecretKey { bytes: k.to_secret_bytes() }),
        Err(e) => Err(e),
    }
}

/// `nostr::SecretKey::from_hex`: 64 hexadecimal digits spelling a valid secret key.
#[verifier::external_body]
pub(crate) fn secret_key_from_hex(s: &str) -> (r: Result<SecretKey, nostr::key::Error>)
    ensures
        r is Ok <==> (is_key_hex(s@) && is_valid_secret(decode_key_hex(s@))),
        r matches Ok(k) ==> k@ == decode_key_hex(s@),
{
    match nostr::SecretKey::from_hex(s) {
        Ok(k) => Ok(SecretKey { bytes: k.to_secret_bytes() }),
        Err(e) => Err(e),
    }
}

/// `nostr::nips::nip19::FromBech32::from_bech32` for a secret key: an `nsec`
/// text whose payload is a valid secret key.
#[verifier::external_body]
pub(crate) fn secret_key_from_nsec(s: &str) -> (r: Result<SecretKey, nostr::nips::nip19::Error>)
    ensures
        r is Ok <==> (nsec_payload(s@) matches Some(b) && is_valid_secret(b)),
        r matches Ok(k) ==> nsec_payload(s@) == Some(k@),
{
    match nostr::SecretKey::from_bech32(s) {
        Ok(k) => Ok(SecretKey { bytes: k.to_secret_bytes() }),
        Err(e) => Err(e),
    }
}

/// `nostr::Keys::new(secret).public_key()`: the x-only public key of a secret key.
#[verifier::external_body]
pub(crate) fn derive_public_key(k: &SecretKey) -> (pk: PublicKey)
    ensures
        pk@ == xonly_public_key(k@),
{
    let secret = nostr::SecretKey::from_slice(&k.bytes).expect("a SecretKey holds a valid scalar");
    PublicKey::from_array(nostr::Keys::new(secret).public_key().to_bytes())
}

/// `nostr::Keys::generate()`: a fresh random secret key.
#[verifier::external_body]
pub(crate) fn generate_secret_key() -> (k: SecretKey) {
    SecretKey { bytes: nostr::Keys::generate().secret_key().to_secret_bytes() }
}

/// A NIP-49 encrypted secret key.
#[verifier::external_type_specification]
#[verifier::external_body]
pub struct ExEncryptedSecretKey(nostr::nips::nip49::EncryptedSecretKey);

/// Whether the text is a bech32 `ncryptsec` that `nostr` decodes.
pub uninterp spec fn is_ncryptsec_text(text: Seq<char>) -> bool;

/// The secret key that a NIP-49 `ncryptsec` text and a password decrypt to, if
/// they do.
pub uninterp spec fn ncryptsec_secret(text: Seq<char>, password: Seq<char>) -> Option<Seq<u8>>;

/// A NIP-49 encrypted secret key, together with the `ncryptsec` text it was
/// decoded from; its value is that text.
pub struct EncryptedKey {
    text: String,
    key: nostr::nips::nip49::EncryptedSecretKey,
}

impl View for EncryptedKey {
    type V = Seq<char>;

    closed spec fn view(&self) -> Seq<char> {
        self.text@
    }
}

/// `nostr::nips::nip19::FromBech32::from_bech32` for an encrypted secret key,
/// kept together with the text it decoded.
#[verifier::external_body]
pub(crate) fn ncryptsec_from_bech32(s: &str) -> (r: Result<EncryptedKey, nostr::nips::nip19::Error>)
    ensures
        r is Ok <==> is_ncryptsec_text(s@),
        r matches Ok(k) ==> k@ == s@,
{
    match nostr::nips::nip49::EncryptedSecretKey::from_bech32(s) {
        Ok(key) => Ok(EncryptedKey { text: s.to_owned(), key }),
        Err(e) => Err(e),
    }
}

/// `nostr::nips::nip49::EncryptedSecretKey::decrypt`: scrypt and
/// XChaCha20-Poly1305 with the password, a function of the `ncryptsec` text
/// and the password. It fails on a wrong password, on a scrypt cost above the
/// crate's limit, and where the bytes are no valid secret key.
#[verifier::external_body]
pub(crate) fn ncryptsec_decrypt(key: &EncryptedKey, password: &str) -> (r: Result<
    SecretKey,
    nostr::nips::nip49::Error,
>)
    ensures
        r is Ok <==> ncryptsec_secret(key@, password@) is Some,
        r matches Ok(k) ==> ncryptsec_secret(key@, password@) == Some(k@),
{
    match key.key.decrypt(password) {
        Ok(k) => Ok(SecretKey { bytes: k.to_secret_bytes() }),
        Err(e) => Err(e),
    }
}

/// The plaintext of a NIP-44 payload between a secret key and a peer's public
/// key, if it decrypts.
pub uninterp spec fn nip44_plaintext(secret: Seq<u8>, peer: Seq<u8>, payload: Seq<char>) -> Option<
    Seq<char>,
>;

/// Whether `nostr::PublicKey::xonly` accepts the bytes: they are the x
/// coordinate of a point of secp256k1.
pub uninterp spec fn is_xonly_point(key: Seq<u8>) -> bool;

/// `nostr::nips::nip44::encrypt` with version 2. It fails exactly where the
/// peer's bytes are no curve point (deriving the conversation key) or the
/// plaintext is empty or longer than 65408 bytes (padding). The nonce is
/// random, so the payload itself is not stated; it is encrypted under the
/// conversation key of `secret` and `peer`, which `nostr::nips::nip44::decrypt`
/// derives alike from the same two keys, so decrypting it with them gives the
/// plaintext back.
#[verifier::external_body]
pub(crate) fn nip44_encrypt(secret: &SecretKey, peer: &PublicKey, plaintext: &str) -> (r: Result<
    String,
    nostr::nips::nip44::Error,
>)
    ensures
        r is Ok <==> (is_xonly_point(peer@) && 1 <= vstd::utf8::encode_utf8(plaintext@).len()
            <= 65408),
        r matches Ok(c) ==> nip44_plaintext(secret@, peer@, c@) == Some(plaintext@),
{
    let secret = nostr::SecretKey::from_slice(&secret.bytes).expect("a SecretKey holds a valid scalar");
    let peer = nostr::PublicKey::from_byte_array(peer.to_array());
    nostr::nips::nip44::encrypt(&secret, &peer, plaintext, nostr::nips::nip44::Version::V2)
}

/// `nostr::nips::nip44::decrypt`.
#[verifier::external_body]
pub(crate) fn nip44_decrypt(secret: &SecretKey, peer: &PublicKey, payload: &str) -> (r: Result<
    String,
    nostr::nips::nip44::Error,
>)
    ensures
        r is Ok <==> nip44_plaintext(secret@, peer@, payload@) is Some,
        r matches Ok(t) ==> nip44_plaintext(secret@, peer@, payload@) == Some(t@),
{
    let secret = nostr::SecretKey::from_slice(&secret.bytes).expect("a SecretKey holds a valid scalar");
    let peer = nostr::PublicKey::from_byte_array(peer.to_array());
    nostr::nips::nip44::decrypt(&secret, &peer, payload)
}

/// What an event's JSON text holds: its id, the bytes of its author's key,
/// its time, kind, tags (each a list of texts) and content.
pub struct EventFields {
    pub id: Seq<u8>,
    pub author: Seq<u8>,
    pub created_at: u64,
    pub kind: u64,
    pub tags: Seq<Seq<Seq<char>>>,
    pub content: Seq<char>,
}

/// The fields that `nostr::Event::from_json` reads from a JSON text, where it
/// reads an event from it.
pub uninterp spec fn event_fields(json: Seq<char>) -> Option<EventFields>;

/// Whether the event that `nostr::Event::from_json` reads from a JSON text
/// passes `Event::verify`: its id is the id of its fields and its signature
/// is valid for its author.
pub uninterp spec fn event_verifies(json: Seq<char>) -> bool;

/// The id that `nostr::EventId::new` computes for an event's fields.
pub uninterp spec fn event_id_of(
    author: Seq<u8>,
    created_at: u64,
    kind: u64,
    tags: Seq<Seq<Seq<char>>>,
    content: Seq<char>,
) -> Seq<u8>;

/// What an unsigned event's JSON text holds: its id where it gives one, the
/// bytes of its author's key, its time, kind, tags and content.
pub struct UnsignedFields {
    pub id: Option<Seq<u8>>,
    pub author: Seq<u8>,
    pub created_at: u64,
    pub kind: u64,
    pub tags: Seq<Seq<Seq<char>>>,
    pub content: Seq<char>,
}

/// The fields that `serde_json::from_str::<nostr::UnsignedEvent>` reads from
/// a JSON text, where it reads an unsigned event from it.
pub uninterp spec fn unsigned_event_fields(json: Seq<char>) -> Option<UnsignedFields>;

/// An unsigned event, together with the JSON text it was read from; its value
/// is that text.
pub struct UnsignedJson {
    text: String,
    event: nostr::UnsignedEvent,
}

impl View for UnsignedJson {
    type V = Seq<char>;

    closed spec fn view(&self) -> Seq<char> {
        self.text@
    }
}

/// `serde_json::from_str::<nostr::UnsignedEvent>`, kept together with the
/// text it read.
#[verifier::external_body]
pub(crate) fn parse_unsigned_event(json: &str) -> (r: Result<UnsignedJson, serde_json::Error>)
    ensures
        r is Ok <==> unsigned_event_fields(json@) is Some,
        r matches Ok(u) ==> u@ == json@,
{
    match serde_json::from_str::<nostr::UnsignedEvent>(json) {
        Ok(event) => Ok(UnsignedJson { text: json.to_owned(), event }),
        Err(e) => Err(e),
    }
}

/// `nostr::UnsignedEvent::sign_with_keys` with the keys of `secret`, as JSON
/// (`JsonUtil::as_json`). The event keeps the unsigned event's author, time,
/// kind, tags and content and gets the id of those fields; signing fails
/// exactly where the unsigned event gives an id that is not that id. The
/// Schnorr signature is made with `secret`, so it verifies where the author is
/// the key of `secret`; its bytes use fresh randomness and are not stated.
#[verifier::external_body]
pub(crate) fn sign_unsigned_event(unsigned: UnsignedJson, secret: &SecretKey) -> (r: Result<
    String,
    nostr::event::Error,
>)
    ensures
        r is Ok <==> (unsigned_event_fields(unsigned@) matches Some(u) && (u.id is None || u.id
            == Some(event_id_of(u.author, u.created_at, u.kind, u.tags, u.content)))),
        r matches Ok(j) ==> (unsigned_event_fields(unsigned@) matches Some(u) && event_fields(j@)
            == Some(
            EventFields {
                id: event_id_of(u.author, u.created_at, u.kind, u.tags, u.content),
                author: u.author,
                created_at: u.created_at,
                kind: u.kind,
                tags: u.tags,
                content: u.content,
            },
        )),
        r matches Ok(j) ==> (unsigned_event_fields(unsigned@) matches Some(u) && (u.author
            == xonly_public_key(secret@) ==> event_verifies(j@))),
{
    let secret = nostr::SecretKey::from_slice(&secret.bytes).expect("a SecretKey holds a valid scalar");
    unsigned.event.sign_with_keys(&nostr::Keys::new(secret)).map(|event| event.as_json())
}

/// `nostr::UnsignedEvent::new` with the key of `secret` as author, the current
/// time (`Timestamp::now`), the kind, the tags (`Tag::parse` of each list)
/// and the content, signed with `sign_with_keys`, as JSON (`JsonUtil::as_json`).
/// A fresh event has no id to check, so signing does not fail; the event gets
/// the id of its fields and a signature that verifies. The time and the
/// signature's bytes are not stated.
#[verifier::external_body]
pub(crate) fn sign_new_event(
    secret: &SecretKey,
    kind: u16,
    tags: &Vec<Vec<String>>,
    content: &str,
) -> (r: Result<String, nostr::event::Error>)
    requires
        forall|i: int| 0 <= i < tags@.len() ==> tags@[i]@.len() > 0,
    ensures
        r is Ok,
        r matches Ok(j) ==> (event_fields(j@) matches Some(e) && e.author == xonly_public_key(secret@)
            && e.kind == kind && e.tags == tags.deep_view() && e.content == content@ && e.id
            == event_id_of(e.author, e.created_at, e.kind, e.tags, e.content)),
        r matches Ok(j) ==> event_verifies(j@),
{
    let keys = nostr::Keys::new(nostr::SecretKey::from_slice(&secret.bytes).expect("a SecretKey holds a valid scalar"));
    let tags: Vec<nostr::Tag> = tags.iter().map(|t| nostr::Tag::parse(t.clone()).expect("tags are not empty")).collect();
    let now = nostr::Timestamp::now();
    nostr::UnsignedEvent::new(keys.public_key(), now, nostr::Kind::from(kind), tags, content)
        .sign_with_keys(&keys)
        .map(|event| event.as_json())
}

} // verus!
