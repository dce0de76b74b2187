use vstd::prelude::*;

verus! {

/// Errors returned by authentication operations.
#[derive(Debug, Clone, PartialEq, Eq)]
#[non_exhaustive]
pub enum NostrAuthError {
    /// `window.nostr` was not found — no NIP-07 extension installed.
    ExtensionNotFound,
    /// The extension rejected the request (e.g. user denied permission).
    ExtensionRejected(String),
    /// The supplied public key string could not be parsed.
    InvalidPublicKey(String),
    /// The supplied bunker URI was malformed.
    InvalidBunkerUri(String),
    /// The WebSocket connection to the bunker failed.
    BunkerConnectionFailed(String),
    /// The bunker did not respond within the configured timeout.
    BunkerTimeout,
    /// A WebAuthn / passkey operation failed.
    PasskeyFailed(String),
    /// The browser does not support the WebAuthn PRF extension.
    PasskeyNotSupported,
    /// The supplied ncryptsec string was malformed.
    InvalidNcryptsec(String),
    /// The password supplied for ncryptsec decryption was incorrect.
    WrongPassword,
    /// The supplied secret key string was invalid.
    InvalidSecretKey(String),
    /// Event signing failed.
    SigningFailed(String),
    /// JSON serialization/deserialization failed.
    Serialization(String),
}

/// The mathematical value of an error: its variant and its text as a sequence.
pub enum AuthFailure {
    ExtensionNotFound,
    ExtensionRejected(Seq<char>),
    InvalidPublicKey(Seq<char>),
    InvalidBunkerUri(Seq<char>),
    BunkerConnectionFailed(Seq<char>),
    BunkerTimeout,
    PasskeyFailed(Seq<char>),
    PasskeyNotSupported,
    InvalidNcryptsec(Seq<char>),
    WrongPassword,
    InvalidSecretKey(Seq<char>),
    SigningFailed(Seq<char>),
    Serialization(Seq<char>),
}

impl View for NostrAuthError {
    type V = AuthFailure;

    open spec fn view(&self) -> AuthFailure {
        match self {
            NostrAuthError::ExtensionNotFound => AuthFailure::ExtensionNotFound,
            NostrAuthError::ExtensionRejected(m) => AuthFailure::ExtensionRejected(m@),
            NostrAuthError::InvalidPublicKey(m) => AuthFailure::InvalidPublicKey(m@),
            NostrAuthError::InvalidBunkerUri(m) => AuthFailure::InvalidBunkerUri(m@),
            NostrAuthError::BunkerConnectionFailed(m) => AuthFailure::BunkerConnectionFailed(m@),
            NostrAuthError::BunkerTimeout => AuthFailure::BunkerTimeout,
            NostrAuthError::PasskeyFailed(m) => AuthFailure::PasskeyFailed(m@),
            NostrAuthError::PasskeyNotSupported => AuthFailure::PasskeyNotSupported,
            NostrAuthError::InvalidNcryptsec(m) => AuthFailure::InvalidNcryptsec(m@),
            NostrAuthError::WrongPassword => AuthFailure::WrongPassword,
            NostrAuthError::InvalidSecretKey(m) => AuthFailure::InvalidSecretKey(m@),
            NostrAuthError::SigningFailed(m) => AuthFailure::SigningFailed(m@),
            NostrAuthError::Serialization(m) => AuthFailure::Serialization(m@),
        }
    }
}

impl AuthFailure {
    /// The human-readable text of the error.
    pub open spec fn description(self) -> Seq<char> {
        match self {
            AuthFailure::ExtensionNotFound => "Browser extension (window.nostr) not found"@,
            AuthFailure::ExtensionRejected(m) => "Extension request rejected: "@ + m,
            AuthFailure::InvalidPublicKey(m) => "Invalid public key format: "@ + m,
            AuthFailure::InvalidBunkerUri(m) => "Invalid bunker URI: "@ + m,
            AuthFailure::BunkerConnectionFailed(m) => "Bunker connection failed: "@ + m,
            AuthFailure::BunkerTimeout => "Bunker connection timed out"@,
            AuthFailure::PasskeyFailed(m) => "Passkey operation failed: "@ + m,
            AuthFailure::PasskeyNotSupported => "Browser does not support WebAuthn PRF extension"@,
            AuthFailure::InvalidNcryptsec(m) => "Invalid ncryptsec string: "@ + m,
            AuthFailure::WrongPassword => "Wrong password for ncryptsec"@,
            AuthFailure::InvalidSecretKey(m) => "Invalid secret key: "@ + m,
            AuthFailure::SigningFailed(m) => "Signing failed: "@ + m,
            AuthFailure::Serialization(m) => "Serialization error: "@ + m,
        }
    }
}

/// Whether `r` is a failure whose value is `f`.
pub open spec fn fails_with<T>(r: Result<T, NostrAuthError>, f: AuthFailure) -> bool {
    r matches Err(e) && e@ == f
}

/// The text in `o`, or `d` where there is none.
pub open spec fn text_or(o: Option<String>, d: Seq<char>) -> Seq<char> {
    match o {
        Some(s) => s@,
        None => d,
    }
}

/// The text in `o`, or a copy of `d` where there is none.
pub fn text_or_else(o: Option<String>, d: &str) -> (r: String)
    ensures
        r@ == text_or(o, d@),
{
    match o {
        Some(s) => s,
        None => text(d),
    }
}

impl NostrAuthError {
    /// The human-readable text of the error.
    pub fn message(&self) -> (s: String)
        ensures
            s@ == self@.description(),
    {
        match self {
            NostrAuthError::ExtensionNotFound => text("Browser extension (window.nostr) not found"),
            NostrAuthError::ExtensionRejected(m) => join("Extension request rejected: ", m.as_str()),
            NostrAuthError::InvalidPublicKey(m) => join("Invalid public key format: ", m.as_str()),
            NostrAuthError::InvalidBunkerUri(m) => join("Invalid bunker URI: ", m.as_str()),
            NostrAuthError::BunkerConnectionFailed(m) => join(
                "Bunker connection failed: ",
                m.as_str(),
            ),
            NostrAuthError::BunkerTimeout => text("Bunker connection timed out"),
            NostrAuthError::PasskeyFailed(m) => join("Passkey operation failed: ", m.as_str()),
            NostrAuthError::PasskeyNotSupported => text(
                "Browser does not support WebAuthn PRF extension",
            ),
            NostrAuthError::InvalidNcryptsec(m) => join("Invalid ncryptsec string: ", m.as_str()),
            NostrAuthError::WrongPassword => text("Wrong password for ncryptsec"),
            NostrAuthError::InvalidSecretKey(m) => join("Invalid secret key: ", m.as_str()),
            NostrAuthError::SigningFailed(m) => join("Signing failed: ", m.as_str()),
            NostrAuthError::Serialization(m) => join("Serialization error: ", m.as_str()),
        }
    }
}

/// An owned copy of a text.
pub fn text(s: &str) -> (r: String)
    ensures
        r@ == s@,
{
    s.to_owned()
}

/// The concatenation of two texts.
pub fn join(a: &str, b: &str) -> (r: String)
    ensures
        r@ == a@ + b@,
{
    let mut r = a.to_owned();
    r.append(b);
    r
}

/// The error of `nostr`'s key parsing.
#[verifier::external_type_specification]
#[verifier::external_body]
pub struct ExKeyError(nostr::key::Error);

/// The error of `nostr`'s bech32 (NIP-19) decoding.
#[verifier::external_type_specification]
#[verifier::external_body]
pub struct ExNip19Error(nostr::nips::nip19::Error);

/// The error of `nostr`'s NIP-49 decryption.
#[verifier::external_type_specification]
#[verifier::external_body]
pub struct ExNip49Error(nostr::nips::nip49::Error);

/// The error of `nostr`'s NIP-44 encryption.
#[verifier::external_type_specification]
#[verifier::external_body]
pub struct ExNip44Error(nostr::nips::nip44::Error);

/// The error of `nostr`'s event signing.
#[verifier::external_type_specification]
#[verifier::external_body]
pub struct ExEventError(nostr::event::Error);

/// The error of `serde_json`.
#[verifier::external_type_specification]
#[verifier::external_body]
pub struct ExJsonError(serde_json::Error);

/// The error of `base64` decoding.
#[verifier::external_type_specification]
#[verifier::external_body]
pub struct ExBase64DecodeError(base64::DecodeError);

/// `Display` of `nostr::key::Error`; its text is not stated.
#[verifier::external_body]
pub(crate) fn key_error_text(e: &nostr::key::Error) -> String {
    e.to_string()
}

/// `Display` of `nostr::nips::nip19::Error`; its text is not stated.
#[verifier::external_body]
pub(crate) fn nip19_error_text(e: &nostr::nips::nip19::Error) -> String {
    e.to_string()
}

/// `Display` of `nostr::nips::nip44::Error`; its text is not stated.
#[verifier::external_body]
pub(crate) fn nip44_error_text(e: &nostr::nips::nip44::Error) -> String {
    e.to_string()
}

/// `Display` of `nostr::event::Error`; its text is not stated.
#[verifier::external_body]
pub(crate) fn event_error_text(e: &nostr::event::Error) -> String {
    e.to_string()
}

/// `Display` of `serde_json::Error`; its text is not stated.
#[verifier::external_body]
pub(crate) fn json_error_text(e: &serde_json::Error) -> String {
    e.to_string()
}

/// `Display` of `base64::DecodeError`; its text is not stated.
#[verifier::external_body]
pub(crate) fn base64_error_text(e: &base64::DecodeError) -> String {
    e.to_string()
}

} // verus!
