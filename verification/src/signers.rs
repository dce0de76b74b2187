use vstd::prelude::*;

use crate::codec::{base64url_encode, base64url_text, sha256, sha256_digest};
use crate::error::{
    join,
    event_error_text, fails_with, json_error_text, key_error_text, nip19_error_text, text,
    text_or, text_or_else, AuthFailure, NostrAuthError,
};
use crate::keys::{
    decode_key_hex, derive_public_key, hex_lower, is_hex_digit, is_key_hex, lemma_key_hex_roundtrip, is_valid_secret, nprofile_key, npub_key,
    nsec_payload, public_key_from_hex, public_key_from_nprofile, public_key_from_npub,
    secret_key_from_hex, secret_key_from_nsec, secret_key_from_slice, sign_unsigned_event,
    parse_unsigned_event, event_fields, event_id_of, event_verifies, unsigned_event_fields, EventFields,
    UnsignedFields,
    xonly_public_key, is_ncryptsec_text, ncryptsec_decrypt, ncryptsec_from_bech32, ncryptsec_secret, PublicKey,
    SecretKey,
};
use crate::text::{
    all_whitespace, chars_of, decimal, decimal_text, is_prefix_of, lemma_trimmed_ignores_whitespace,
    lemma_trimmed_surrounded, starts_with,
    string_of, trim, trim_end, trim_start, trimmed,
};

verus! {

/// An unsigned Nostr event as `nostr` parses it from JSON.
#[verifier::external_type_specification]
#[verifier::external_body]
pub struct ExUnsignedEvent(nostr::UnsignedEvent);

/// Whether `serde_json` reads the text as a `nostr::UnsignedEvent`.
pub open spec fn is_unsigned_event_json(text: Seq<char>) -> bool {
    unsigned_event_fields(text) is Some
}

/// The id of an unsigned event's fields.
pub open spec fn computed_id(u: UnsignedFields) -> Seq<u8> {
    event_id_of(u.author, u.created_at, u.kind, u.tags, u.content)
}

/// Whether an unsigned event's id, where it gives one, is the id of its fields.
pub open spec fn id_consistent(u: UnsignedFields) -> bool {
    u.id is None || u.id == Some(computed_id(u))
}

/// Whether `j` is the JSON of the unsigned event `u` signed with `secret`: the
/// same author, time, kind, tags and content, the id of those fields, and a
/// signature that verifies where the author is the key of `secret`.
pub open spec fn signs_as(u: UnsignedFields, secret: Seq<u8>, j: Seq<char>) -> bool {
    &&& event_fields(j) == Some(
        EventFields {
            id: computed_id(u),
            author: u.author,
            created_at: u.created_at,
            kind: u.kind,
            tags: u.tags,
            content: u.content,
        },
    )
    &&& (u.author == xonly_public_key(secret) ==> event_verifies(j))
}

/// Whether `r` is the outcome of signing an unsigned event given as JSON with
/// `secret`: refused with `Serialization` where the text is no unsigned event,
/// with `SigningFailed` where it gives an id that is not the id of its fields,
/// and otherwise the signed event.
pub open spec fn signed_with(secret: Seq<u8>, json: Seq<char>, r: Result<String, NostrAuthError>) -> bool {
    match unsigned_event_fields(json) {
        None => r matches Err(NostrAuthError::Serialization(_)),
        Some(u) => if id_consistent(u) {
            r matches Ok(j) && signs_as(u, secret, j@)
        } else {
            r matches Err(NostrAuthError::SigningFailed(_))
        },
    }
}

/// Signs an unsigned event given as JSON with `secret`, and gives the signed
/// event as JSON.
fn sign_event_json(secret: &SecretKey, event_json: &str) -> (r: Result<String, NostrAuthError>)
    ensures
        signed_with(secret@, event_json@, r),
{
    let unsigned = match parse_unsigned_event(event_json) {
        Ok(u) => u,
        Err(e) => return Err(NostrAuthError::Serialization(json_error_text(&e))),
    };
    match sign_unsigned_event(unsigned, secret) {
        Ok(j) => Ok(j),
        Err(e) => Err(NostrAuthError::SigningFailed(event_error_text(&e))),
    }
}

// ─────────────────────────────────────────────
//  NIP-07: Browser Extension
// ─────────────────────────────────────────────

/// Handle to an authenticated NIP-07 browser extension session.
#[derive(Clone, Debug)]
#[non_exhaustive]
pub struct Nip07Handle {
    /// The authenticated user's public key.
    pub public_key: PublicKey,
}

/// What came back from the extension's `signEvent`, as the browser side saw it.
#[derive(Clone, Debug)]
pub enum ExtensionSignReply {
    /// `JSON.parse` refused the unsigned event.
    InvalidEventJson,
    /// The extension rejected the request, with the error's text if it had one.
    Rejected(Option<String>),
    /// `JSON.stringify` refused the signed event.
    StringifyFailed,
    /// The signed event, stringified; `None` where the result was not a string.
    Signed(Option<String>),
}

/// What asking the extension for the public key came to, as the browser side
/// saw it.
#[derive(Clone, Debug)]
pub enum ExtensionKeyReply {
    /// There is no `window.nostr`: no extension is installed.
    NoExtension,
    /// The extension rejected the request, with the error's text if it had one.
    Rejected(Option<String>),
    /// The extension answered; `None` where the answer was not a string.
    Answered(Option<String>),
}

impl Nip07Handle {
    /// The handle for what the extension's `getPublicKey` came to.
    pub fn from_extension_reply(reply: ExtensionKeyReply) -> (r: Result<Nip07Handle, NostrAuthError>)
        ensures
            match reply {
                ExtensionKeyReply::NoExtension => fails_with(r, AuthFailure::ExtensionNotFound),
                ExtensionKeyReply::Rejected(e) => fails_with(
                    r,
                    AuthFailure::ExtensionRejected(text_or(e, "unknown error"@)),
                ),
                ExtensionKeyReply::Answered(None) => fails_with(
                    r,
                    AuthFailure::ExtensionRejected("expected string pubkey"@),
                ),
                ExtensionKeyReply::Answered(Some(hex)) => if is_key_hex(hex@) {
                    r matches Ok(h) && h.public_key@ == decode_key_hex(hex@)
                } else {
                    r matches Err(NostrAuthError::InvalidPublicKey(_))
                },
            },
    {
        match reply {
            ExtensionKeyReply::NoExtension => Err(NostrAuthError::ExtensionNotFound),
            ExtensionKeyReply::Rejected(e) => Err(
                NostrAuthError::ExtensionRejected(text_or_else(e, "unknown error")),
            ),
            ExtensionKeyReply::Answered(None) => Err(
                NostrAuthError::ExtensionRejected(text("expected string pubkey")),
            ),
            ExtensionKeyReply::Answered(Some(hex)) => match public_key_from_hex(hex.as_str()) {
                Ok(pk) => Ok(Nip07Handle { public_key: pk }),
                Err(e) => Err(NostrAuthError::InvalidPublicKey(key_error_text(&e))),
            },
        }
    }

    /// The outcome of a `signEvent` request to the extension.
    pub fn sign_outcome(reply: ExtensionSignReply) -> (r: Result<String, NostrAuthError>)
        ensures
            match reply {
                ExtensionSignReply::InvalidEventJson => fails_with(
                    r,
                    AuthFailure::SigningFailed("invalid event JSON"@),
                ),
                ExtensionSignReply::Rejected(e) => fails_with(
                    r,
                    AuthFailure::SigningFailed(text_or(e, "rejected"@)),
                ),
                ExtensionSignReply::StringifyFailed => fails_with(
                    r,
                    AuthFailure::SigningFailed("could not stringify signed event"@),
                ),
                ExtensionSignReply::Signed(s) => r matches Ok(t) && t@ == text_or(s, Seq::empty()),
            },
    {
        match reply {
            ExtensionSignReply::InvalidEventJson => Err(
                NostrAuthError::SigningFailed(text("invalid event JSON")),
            ),
            ExtensionSignReply::Rejected(e) => Err(
                NostrAuthError::SigningFailed(text_or_else(e, "rejected")),
            ),
            ExtensionSignReply::StringifyFailed => Err(
                NostrAuthError::SigningFailed(text("could not stringify signed event")),
            ),
            ExtensionSignReply::Signed(s) => {
                proof {
                    reveal_strlit("");
                }
                Ok(text_or_else(s, ""))
            },
        }
    }

    /// The outcome of a NIP-44 `encrypt` (`encrypt == true`) or `decrypt`
    /// request to the extension: `Err` with the error's text if it had one, `Ok`
    /// with the value if it was a string.
    pub fn nip44_outcome(reply: Result<Option<String>, Option<String>>, encrypt: bool) -> (r:
        Result<String, NostrAuthError>)
        ensures
            match reply {
                Err(e) => fails_with(
                    r,
                    AuthFailure::SigningFailed(
                        text_or(e, if encrypt { "encrypt failed"@ } else { "decrypt failed"@ }),
                    ),
                ),
                Ok(None) => fails_with(
                    r,
                    AuthFailure::SigningFailed(
                        if encrypt {
                            "expected string ciphertext"@
                        } else {
                            "expected string plaintext"@
                        },
                    ),
                ),
                Ok(Some(s)) => r matches Ok(t) && t@ == s@,
            },
    {
        match reply {
            Err(e) => {
                let fallback = if encrypt { "encrypt failed" } else { "decrypt failed" };
                Err(NostrAuthError::SigningFailed(text_or_else(e, fallback)))
            },
            Ok(None) => {
                let msg = if encrypt {
                    "expected string ciphertext"
                } else {
                    "expected string plaintext"
                };
                Err(NostrAuthError::SigningFailed(text(msg)))
            },
            Ok(Some(s)) => Ok(s),
        }
    }
}


// ─────────────────────────────────────────────
//  Passkey — WebAuthn PRF
// ─────────────────────────────────────────────

/// The secret key that a passkey's 32-byte PRF output stands for: its SHA-256 digest.
pub open spec fn prf_secret(prf_output: Seq<u8>) -> Seq<u8> {
    sha256_digest(prf_output)
}

/// Whether `r` is the outcome of logging in with a passkey credential whose
/// PRF output is `prf`: refused unless the output is 32 bytes and its digest a
/// valid secret key; otherwise the session of that key.
pub open spec fn prf_login(
    credential_id: Seq<u8>,
    prf: Seq<u8>,
    r: Result<PasskeySession, NostrAuthError>,
) -> bool {
    if prf.len() != 32 {
        fails_with(r, AuthFailure::PasskeyFailed("PRF output must be 32 bytes, got "@ + decimal(prf.len())))
    } else if is_valid_secret(prf_secret(prf)) {
        r matches Ok(s) && s@.secret_key == prf_secret(prf) && s@.public_key == xonly_public_key(
            prf_secret(prf),
        ) && s@.credential_id == credential_id
    } else {
        r matches Err(NostrAuthError::PasskeyFailed(_))
    }
}

/// The same PRF output gives the same Nostr identity, whichever credential ID
/// (and device) it comes with.
pub proof fn law_passkey_identity_is_deterministic(
    c1: Seq<u8>,
    c2: Seq<u8>,
    prf: Seq<u8>,
    r1: Result<PasskeySession, NostrAuthError>,
    r2: Result<PasskeySession, NostrAuthError>,
)
    requires
        prf_login(c1, prf, r1),
        prf_login(c2, prf, r2),
        r1 is Ok,
    ensures
        r2 matches Ok(s2) && r1->Ok_0@.public_key == s2@.public_key && r1->Ok_0@.secret_key
            == s2@.secret_key,
{
}

/// A 32-byte PRF output whose SHA-256 digest is a valid secret key logs in as
/// that digest: the secret key is SHA-256 of exactly the PRF bytes, in order,
/// and the public key is its x-only point.
pub proof fn law_passkey_key_is_digest_of_prf(
    credential_id: Seq<u8>,
    prf: Seq<u8>,
    r: Result<PasskeySession, NostrAuthError>,
)
    requires
        prf_login(credential_id, prf, r),
        prf.len() == 32,
        is_valid_secret(sha256_digest(prf)),
    ensures
        r matches Ok(s) && s@.secret_key == sha256_digest(prf) && s@.public_key == xonly_public_key(
            sha256_digest(prf),
        ),
{
}

/// An active passkey session. The secret key is in memory only; it is derived
/// anew on each login.
pub struct PasskeySession {
    /// The authenticated user's public key.
    pub(crate) public_key: PublicKey,
    /// The secp256k1 secret key derived from the WebAuthn PRF output.
    secret_key: SecretKey,
    /// The WebAuthn credential ID (persisted base64url-encoded for restore).
    pub(crate) credential_id: Vec<u8>,
}

/// What the browser side read from a WebAuthn credential.
#[derive(Clone, Debug)]
pub enum CredentialReading {
    /// The credential has no `rawId`.
    NoRawId,
    /// `getClientExtensionResults` was missing or threw.
    NoExtensionResults,
    /// The extension results hold no `prf.results`: the browser lacks PRF.
    NoPrfResults,
    /// The PRF results hold no `first` output.
    NoPrfFirst,
    /// The credential ID and the first PRF output.
    Read { credential_id: Vec<u8>, prf_output: Vec<u8> },
}

/// The value of a passkey session: its public key, secret key and credential ID.
pub struct PasskeyView {
    pub public_key: Seq<u8>,
    pub secret_key: Seq<u8>,
    pub credential_id: Seq<u8>,
}

impl View for PasskeySession {
    type V = PasskeyView;

    closed spec fn view(&self) -> PasskeyView {
        PasskeyView {
            public_key: self.public_key@,
            secret_key: self.secret_key@,
            credential_id: self.credential_id@,
        }
    }
}

impl Clone for PasskeySession {
    /// A copy of the session.
    fn clone(&self) -> (c: PasskeySession)
        ensures
            c@ == self@,
    {
        proof {
            use_type_invariant(self);
        }
        PasskeySession {
            public_key: self.public_key,
            secret_key: self.secret_key,
            credential_id: self.credential_id.clone(),
        }
    }
}

impl PasskeySession {
    #[verifier::type_invariant]
    closed spec fn key_matches(self) -> bool {
        self.public_key@ == xonly_public_key(self.secret_key@)
    }

    /// The public key of a session is 32 bytes long.
    pub proof fn lemma_key_len(self)
        ensures
            self@.public_key.len() == 32,
    {
        self.public_key.lemma_len();
    }

    /// The authenticated user's public key.
    pub fn public_key(&self) -> (pk: PublicKey)
        ensures
            pk@ == self@.public_key,
            pk@ == xonly_public_key(self@.secret_key),
    {
        proof {
            use_type_invariant(self);
        }
        self.public_key
    }

    /// The WebAuthn credential ID.
    pub fn credential_id(&self) -> (id: &Vec<u8>)
        ensures
            id@ == self@.credential_id,
    {
        &self.credential_id
    }

    /// The session for a credential and its PRF output: the SHA-256 digest of the
    /// 32-byte PRF output is the secret key, the same on every device.
    pub fn from_prf_output(credential_id: Vec<u8>, prf_output: &[u8]) -> (r: Result<
        PasskeySession,
        NostrAuthError,
    >)
        ensures
            prf_login(credential_id@, prf_output@, r),
            prf_output@.len() == 32 && is_valid_secret(sha256_digest(prf_output@)) ==> (r matches Ok(
                s,
            ) && s@.secret_key == sha256_digest(prf_output@) && s@.public_key == xonly_public_key(
                sha256_digest(prf_output@),
            )),
    {
        if prf_output.len() != 32 {
            let got = decimal_text(prf_output.len());
            return Err(
                NostrAuthError::PasskeyFailed(join("PRF output must be 32 bytes, got ", got.as_str())),
            );
        }
        let digest = sha256(prf_output);
        let secret_key = match secret_key_from_slice(&digest) {
            Ok(k) => k,
            Err(e) => return Err(NostrAuthError::PasskeyFailed(key_error_text(&e))),
        };
        let public_key = derive_public_key(&secret_key);
        Ok(PasskeySession { public_key, secret_key, credential_id })
    }

    /// The session for what was read from a WebAuthn credential.
    pub fn from_credential(reading: CredentialReading) -> (r: Result<PasskeySession, NostrAuthError>)
        ensures
            match reading {
                CredentialReading::NoRawId => fails_with(r, AuthFailure::PasskeyFailed("no rawId"@)),
                CredentialReading::NoExtensionResults => fails_with(
                    r,
                    AuthFailure::PasskeyFailed("getClientExtensionResults failed"@),
                ),
                CredentialReading::NoPrfResults => fails_with(r, AuthFailure::PasskeyNotSupported),
                CredentialReading::NoPrfFirst => fails_with(
                    r,
                    AuthFailure::PasskeyFailed("no PRF first output"@),
                ),
                CredentialReading::Read { credential_id, prf_output } => prf_login(
                    credential_id@,
                    prf_output@,
                    r,
                ),
            },
    {
        match reading {
            CredentialReading::NoRawId => Err(NostrAuthError::PasskeyFailed(text("no rawId"))),
            CredentialReading::NoExtensionResults => Err(
                NostrAuthError::PasskeyFailed(text("getClientExtensionResults failed")),
            ),
            CredentialReading::NoPrfResults => Err(NostrAuthError::PasskeyNotSupported),
            CredentialReading::NoPrfFirst => Err(
                NostrAuthError::PasskeyFailed(text("no PRF first output")),
            ),
            CredentialReading::Read { credential_id, prf_output } => Self::from_prf_output(
                credential_id,
                prf_output.as_slice(),
            ),
        }
    }

    /// The text under which a credential's PRF input is keyed in a WebAuthn
    /// `evalByCredential` request: its URL-safe unpadded base64.
    pub fn credential_key(credential_id: &[u8]) -> (s: String)
        ensures
            s@ == base64url_text(credential_id@),
    {
        base64url_encode(credential_id)
    }

    /// Signs an unsigned event given as JSON with the derived key.
    pub fn sign_event(&self, event_json: &str) -> (r: Result<String, NostrAuthError>)
        ensures
            signed_with(self@.secret_key, event_json@, r),
            self@.public_key == xonly_public_key(self@.secret_key),
    {
        proof {
            use_type_invariant(self);
        }
        sign_event_json(&self.secret_key, event_json)
    }
}

// ─────────────────────────────────────────────
//  Read-Only
// ─────────────────────────────────────────────

/// Read-only access — public key only, no signing capability.
#[derive(Clone, Debug)]
#[non_exhaustive]
pub struct ReadOnlyHandle {
    /// The authenticated user's public key.
    pub public_key: PublicKey,
}

/// The key that read-only login takes from an input: 64 hex digits, else an
/// `npub`, else an `nprofile`, each after trimming surrounding whitespace.
pub open spec fn read_only_key(input: Seq<char>) -> Option<Seq<u8>> {
    let t = trimmed(input);
    if is_key_hex(t) {
        Some(decode_key_hex(t))
    } else if npub_key(t) is Some {
        npub_key(t)
    } else if is_prefix_of("nprofile"@, t) && nprofile_key(t) is Some {
        nprofile_key(t)
    } else {
        None
    }
}

/// Read-only login takes a key back from its 64-digit hex text, also with
/// whitespace around it.
pub proof fn law_read_only_accepts_key_hex(k: Seq<u8>, before: Seq<char>, after: Seq<char>)
    requires
        k.len() == 32,
        all_whitespace(before),
        all_whitespace(after),
    ensures
        read_only_key(before + hex_lower(k) + after) == Some(k),
{
    lemma_key_hex_roundtrip(k);
    let h = hex_lower(k);
    assert(is_hex_digit(h[0]) && is_hex_digit(h[63]));
    assert(trim_start(h) == h);
    assert(trim_end(h) == h);
    lemma_trimmed_surrounded(before, h, after);
}

/// Whitespace around an input never changes the key that read-only login takes
/// from it, whichever of the three forms the input has.
pub proof fn law_read_only_ignores_surrounding_whitespace(
    before: Seq<char>,
    input: Seq<char>,
    after: Seq<char>,
)
    requires
        all_whitespace(before),
        all_whitespace(after),
    ensures
        read_only_key(before + input + after) == read_only_key(input),
{
    lemma_trimmed_ignores_whitespace(before, input, after);
}

impl ReadOnlyHandle {
    /// Parses an `npub1...`, `nprofile1...` or 64-digit hex public key.
    pub fn parse(input: &str) -> (r: Result<ReadOnlyHandle, NostrAuthError>)
        ensures
            match read_only_key(input@) {
                Some(k) => r matches Ok(h) && h.public_key@ == k,
                None => fails_with(
                    r,
                    AuthFailure::InvalidPublicKey(
                        "Expected npub1..., nprofile1..., or 64-char hex public key"@,
                    ),
                ),
            },
    {
        let chars = chars_of(input);
        let trimmed_chars = trim(chars.as_slice());
        let t = string_of(trimmed_chars.as_slice());
        if let Ok(pk) = public_key_from_hex(t.as_str()) {
            return Ok(ReadOnlyHandle { public_key: pk });
        }
        if let Ok(pk) = public_key_from_npub(t.as_str()) {
            return Ok(ReadOnlyHandle { public_key: pk });
        }
        if starts_with(trimmed_chars.as_slice(), chars_of("nprofile").as_slice()) {
            if let Ok(pk) = public_key_from_nprofile(t.as_str()) {
                return Ok(ReadOnlyHandle { public_key: pk });
            }
        }
        Err(
            NostrAuthError::InvalidPublicKey(
                text("Expected npub1..., nprofile1..., or 64-char hex public key"),
            ),
        )
    }
}

impl core::str::FromStr for ReadOnlyHandle {
    type Err = NostrAuthError;

    /// Parses an `npub1...`, `nprofile1...` or 64-digit hex public key; see
    /// [`ReadOnlyHandle::parse`].
    fn from_str(input: &str) -> (r: Result<ReadOnlyHandle, NostrAuthError>)
        ensures
            match read_only_key(input@) {
                Some(k) => r matches Ok(h) && h.public_key@ == k,
                None => fails_with(
                    r,
                    AuthFailure::InvalidPublicKey(
                        "Expected npub1..., nprofile1..., or 64-char hex public key"@,
                    ),
                ),
            },
    {
        ReadOnlyHandle::parse(input)
    }
}

// ─────────────────────────────────────────────
//  RawKeySession — ncryptsec (NIP-49) + raw nsec
// ─────────────────────────────────────────────

/// In-memory raw key session, for NIP-49 ncryptsec and raw nsec input.
pub struct RawKeySession {
    /// The authenticated user's public key.
    pub(crate) public_key: PublicKey,
    /// The in-memory secp256k1 secret key.
    secret_key: SecretKey,
}

/// The secret key that raw-key login takes from an input: an `nsec` whose
/// payload is a valid key, else 64 hex digits spelling one, after trimming.
pub open spec fn raw_secret(input: Seq<char>) -> Option<Seq<u8>> {
    let t = trimmed(input);
    if nsec_payload(t) matches Some(b) && is_valid_secret(b) {
        nsec_payload(t)
    } else if is_key_hex(t) && is_valid_secret(decode_key_hex(t)) {
        Some(decode_key_hex(t))
    } else {
        None
    }
}

/// Whitespace around an input never changes the secret key that raw-key login
/// takes from it, as an `nsec` or as 64 hex digits.
pub proof fn law_raw_secret_ignores_surrounding_whitespace(
    before: Seq<char>,
    input: Seq<char>,
    after: Seq<char>,
)
    requires
        all_whitespace(before),
        all_whitespace(after),
    ensures
        raw_secret(before + input + after) == raw_secret(input),
{
    lemma_trimmed_ignores_whitespace(before, input, after);
}

/// The value of a raw-key session: its public key and secret key.
pub struct RawKeyView {
    pub public_key: Seq<u8>,
    pub secret_key: Seq<u8>,
}

impl View for RawKeySession {
    type V = RawKeyView;

    closed spec fn view(&self) -> RawKeyView {
        RawKeyView { public_key: self.public_key@, secret_key: self.secret_key@ }
    }
}

impl Clone for RawKeySession {
    /// A copy of the session.
    fn clone(&self) -> (c: RawKeySession)
        ensures
            c@ == self@,
    {
        proof {
            use_type_invariant(self);
        }
        RawKeySession { public_key: self.public_key, secret_key: self.secret_key }
    }
}

impl RawKeySession {
    #[verifier::type_invariant]
    closed spec fn key_matches(self) -> bool {
        self.public_key@ == xonly_public_key(self.secret_key@)
    }

    /// The public key of a session is 32 bytes long.
    pub proof fn lemma_key_len(self)
        ensures
            self@.public_key.len() == 32,
    {
        self.public_key.lemma_len();
    }

    /// The authenticated user's public key.
    pub fn public_key(&self) -> (pk: PublicKey)
        ensures
            pk@ == self@.public_key,
            pk@ == xonly_public_key(self@.secret_key),
    {
        proof {
            use_type_invariant(self);
        }
        self.public_key
    }

    /// Decrypts a NIP-49 `ncryptsec1...` string with a password.
    pub fn from_ncryptsec(ncryptsec: &str, password: &str) -> (r: Result<
        RawKeySession,
        NostrAuthError,
    >)
        ensures
            !is_ncryptsec_text(ncryptsec@) ==> r matches Err(NostrAuthError::InvalidNcryptsec(_)),
            is_ncryptsec_text(ncryptsec@) ==> match ncryptsec_secret(ncryptsec@, password@) {
                Some(b) => r matches Ok(s) && s@.secret_key == b && s@.public_key
                    == xonly_public_key(b),
                None => fails_with(r, AuthFailure::WrongPassword),
            },
    {
        let encrypted = match ncryptsec_from_bech32(ncryptsec) {
            Ok(k) => k,
            Err(e) => return Err(NostrAuthError::InvalidNcryptsec(nip19_error_text(&e))),
        };
        let secret_key = match ncryptsec_decrypt(&encrypted, password) {
            Ok(k) => k,
            Err(_) => return Err(NostrAuthError::WrongPassword),
        };
        let public_key = derive_public_key(&secret_key);
        Ok(RawKeySession { public_key, secret_key })
    }

    /// Parses a raw `nsec1...` bech32 or 64-digit hex secret key.
    pub fn from_nsec_or_hex(input: &str) -> (r: Result<RawKeySession, NostrAuthError>)
        ensures
            match raw_secret(input@) {
                Some(b) => r matches Ok(s) && s@.secret_key == b && s@.public_key
                    == xonly_public_key(b),
                None => fails_with(
                    r,
                    AuthFailure::InvalidSecretKey(
                        "Expected nsec1... (bech32) or 64-char hex private key"@,
                    ),
                ),
            },
    {
        let chars = chars_of(input);
        let t = string_of(trim(chars.as_slice()).as_slice());
        let secret_key = if let Ok(k) = secret_key_from_nsec(t.as_str()) {
            k
        } else if let Ok(k) = secret_key_from_hex(t.as_str()) {
            k
        } else {
            return Err(
                NostrAuthError::InvalidSecretKey(
                    text("Expected nsec1... (bech32) or 64-char hex private key"),
                ),
            );
        };
        let public_key = derive_public_key(&secret_key);
        Ok(RawKeySession { public_key, secret_key })
    }

    /// Signs an unsigned event given as JSON with the in-memory key.
    pub fn sign_event(&self, event_json: &str) -> (r: Result<String, NostrAuthError>)
        ensures
            signed_with(self@.secret_key, event_json@, r),
            self@.public_key == xonly_public_key(self@.secret_key),
    {
        proof {
            use_type_invariant(self);
        }
        sign_event_json(&self.secret_key, event_json)
    }
}

} // verus!
