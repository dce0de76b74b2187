use vstd::prelude::*;

use crate::bunker::BunkerSession;
use crate::codec::{base64url_bytes, base64url_encode, base64url_text};
use crate::error::{text, NostrAuthError};
use crate::json::opt_view;
use crate::keys::{hex_lower, PublicKey};
use crate::signers::{signed_with, Nip07Handle, PasskeySession, RawKeySession, ReadOnlyHandle};

verus! {

/// Result of a successful authentication attempt.
#[derive(Clone)]
#[non_exhaustive]
pub enum AuthResult {
    /// NIP-07: browser extension (Alby, nos2x, Nostr KeyX, etc.)
    Extension(Nip07Handle),
    /// NIP-46: remote bunker signer (also covers Amber via NIP-46 mode)
    Bunker(Box<BunkerSession>),
    /// Passkey: WebAuthn PRF-derived secp256k1 key
    Passkey(PasskeySession),
    /// Read-only: public key only, no signing capability
    ReadOnly(ReadOnlyHandle),
    /// NIP-49: ncryptsec password-decrypted key (in-memory only)
    Ncryptsec(RawKeySession),
    /// Raw nsec paste: in-memory key. Pasting a raw key is an opt-in method
    /// (an XSS on the page can steal the key), not among the default methods.
    RawNsec(RawKeySession),
}

/// Which login method was used to establish a [`PersistedSession`].
#[derive(Debug, Clone, Copy, PartialEq, Eq, Structural)]
#[non_exhaustive]
pub enum PersistedMethod {
    /// NIP-07 browser extension.
    Extension,
    /// NIP-46 remote bunker.
    Bunker,
    /// WebAuthn passkey.
    Passkey,
    /// Read-only public key.
    ReadOnly,
}

/// What gets written to storage — never private key material.
#[derive(Debug, Clone, PartialEq, Eq)]
#[non_exhaustive]
pub struct PersistedSession {
    /// Authenticated public key as lowercase hex.
    pub public_key_hex: String,
    /// Which login method was used.
    pub method: PersistedMethod,
    /// NIP-46: stored bunker URI for re-connection on restore
    pub bunker_uri: Option<String>,
    /// Passkey: base64url credential ID — used to call `credentials.get()`
    pub passkey_credential_id: Option<String>,
}

/// The value of a [`PersistedSession`].
pub struct PersistedView {
    pub public_key_hex: Seq<char>,
    pub method: PersistedMethod,
    pub bunker_uri: Option<Seq<char>>,
    pub passkey_credential_id: Option<Seq<char>>,
}

impl View for PersistedSession {
    type V = PersistedView;

    open spec fn view(&self) -> PersistedView {
        PersistedView {
            public_key_hex: self.public_key_hex@,
            method: self.method,
            bunker_uri: opt_view(self.bunker_uri),
            passkey_credential_id: opt_view(self.passkey_credential_id),
        }
    }
}

impl PersistedSession {
    /// A persisted session with these fields.
    pub fn new(
        public_key_hex: String,
        method: PersistedMethod,
        bunker_uri: Option<String>,
        passkey_credential_id: Option<String>,
    ) -> (s: PersistedSession)
        ensures
            s.public_key_hex == public_key_hex,
            s.method == method,
            s.bunker_uri == bunker_uri,
            s.passkey_credential_id == passkey_credential_id,
    {
        PersistedSession { public_key_hex, method, bunker_uri, passkey_credential_id }
    }
}

/// How a session signs an event.
#[derive(Debug)]
pub enum SignStep {
    /// Ask the browser extension (NIP-07).
    ViaExtension,
    /// Ask the remote signer (NIP-46).
    ViaBunker,
    /// Signed in memory, or refused: the outcome is here.
    Done(Result<String, NostrAuthError>),
}

impl AuthResult {
    /// The public key of the session.
    pub open spec fn key(&self) -> Seq<u8> {
        match self {
            AuthResult::Extension(h) => h.public_key@,
            AuthResult::Bunker(s) => s@.public_key,
            AuthResult::Passkey(s) => s@.public_key,
            AuthResult::ReadOnly(h) => h.public_key@,
            AuthResult::Ncryptsec(s) => s@.public_key,
            AuthResult::RawNsec(s) => s@.public_key,
        }
    }

    /// The display name of the login method.
    pub open spec fn method_label(&self) -> Seq<char> {
        match self {
            AuthResult::Extension(_) => "Browser Extension"@,
            AuthResult::Bunker(_) => "Nostr Connect"@,
            AuthResult::Passkey(_) => "Passkey"@,
            AuthResult::ReadOnly(_) => "Read-Only"@,
            AuthResult::Ncryptsec(_) => "Encrypted Key"@,
            AuthResult::RawNsec(_) => "Secret Key"@,
        }
    }

    /// What is persisted of a session: its public key as lower-case hex and how
    /// to re-establish it, never key material; nothing for an in-memory key.
    pub open spec fn persisted(&self) -> Option<PersistedView> {
        match self {
            AuthResult::Extension(h) => Some(
                PersistedView {
                    public_key_hex: hex_lower(h.public_key@),
                    method: PersistedMethod::Extension,
                    bunker_uri: None,
                    passkey_credential_id: None,
                },
            ),
            AuthResult::Bunker(s) => Some(
                PersistedView {
                    public_key_hex: hex_lower(s@.public_key),
                    method: PersistedMethod::Bunker,
                    bunker_uri: Some(s@.bunker_uri),
                    passkey_credential_id: None,
                },
            ),
            AuthResult::Passkey(s) => Some(
                PersistedView {
                    public_key_hex: hex_lower(s@.public_key),
                    method: PersistedMethod::Passkey,
                    bunker_uri: None,
                    passkey_credential_id: Some(base64url_text(s@.credential_id)),
                },
            ),
            AuthResult::ReadOnly(h) => Some(
                PersistedView {
                    public_key_hex: hex_lower(h.public_key@),
                    method: PersistedMethod::ReadOnly,
                    bunker_uri: None,
                    passkey_credential_id: None,
                },
            ),
            AuthResult::Ncryptsec(_) => None,
            AuthResult::RawNsec(_) => None,
        }
    }

    /// Whether `o` is what [`AuthResult::to_persisted_session`] gives for this
    /// session: the persisted view, where a passkey's credential text decodes
    /// back to its credential ID.
    pub open spec fn persists_as(&self, o: Option<PersistedSession>) -> bool {
        match self.persisted() {
            Some(v) => o matches Some(s) && s@ == v && (self matches AuthResult::Passkey(ps)
                ==> base64url_bytes(base64url_text(ps@.credential_id)) == Some(ps@.credential_id)),
            None => o is None,
        }
    }

    /// Returns the public key for any auth variant.
    pub fn public_key(&self) -> (pk: PublicKey)
        ensures
            pk@ == self.key(),
    {
        match self {
            AuthResult::Extension(h) => h.public_key,
            AuthResult::Bunker(s) => s.public_key(),
            AuthResult::Passkey(s) => s.public_key(),
            AuthResult::ReadOnly(h) => h.public_key,
            AuthResult::Ncryptsec(s) => s.public_key(),
            AuthResult::RawNsec(s) => s.public_key(),
        }
    }

    /// How to sign an event given as JSON with this session: the extension and
    /// the remote signer are asked by the caller; in-memory keys sign here;
    /// read-only sessions cannot sign.
    pub fn sign_event(&self, event_json: &str) -> (r: SignStep)
        ensures
            match self {
                AuthResult::Extension(_) => r is ViaExtension,
                AuthResult::Bunker(_) => r is ViaBunker,
                AuthResult::ReadOnly(_) => r matches SignStep::Done(Err(e)) && e@
                    == crate::error::AuthFailure::SigningFailed(
                    "Read-only session cannot sign events"@,
                ),
                AuthResult::Passkey(s) => r matches SignStep::Done(o) && signed_with(
                    s@.secret_key,
                    event_json@,
                    o,
                ),
                AuthResult::Ncryptsec(s) => r matches SignStep::Done(o) && signed_with(
                    s@.secret_key,
                    event_json@,
                    o,
                ),
                AuthResult::RawNsec(s) => r matches SignStep::Done(o) && signed_with(
                    s@.secret_key,
                    event_json@,
                    o,
                ),
            },
    {
        match self {
            AuthResult::Extension(_) => SignStep::ViaExtension,
            AuthResult::Bunker(_) => SignStep::ViaBunker,
            AuthResult::Passkey(s) => SignStep::Done(s.sign_event(event_json)),
            AuthResult::ReadOnly(_) => SignStep::Done(
                Err(NostrAuthError::SigningFailed(text("Read-only session cannot sign events"))),
            ),
            AuthResult::Ncryptsec(s) => SignStep::Done(s.sign_event(event_json)),
            AuthResult::RawNsec(s) => SignStep::Done(s.sign_event(event_json)),
        }
    }

    /// Returns `true` if this session can sign events: `false` only for
    /// read-only sessions.
    pub fn can_sign(&self) -> (r: bool)
        ensures
            r == !(self is ReadOnly),
    {
        !matches!(self, AuthResult::ReadOnly(_))
    }

    /// Human-readable name of the authentication method.
    pub fn method_name(&self) -> (r: &'static str)
        ensures
            r@ == self.method_label(),
    {
        match self {
            AuthResult::Extension(_) => "Browser Extension",
            AuthResult::Bunker(_) => "Nostr Connect",
            AuthResult::Passkey(_) => "Passkey",
            AuthResult::ReadOnly(_) => "Read-Only",
            AuthResult::Ncryptsec(_) => "Encrypted Key",
            AuthResult::RawNsec(_) => "Secret Key",
        }
    }

    /// Builds the [`PersistedSession`] for storage (never private key bytes).
    pub fn to_persisted_session(&self) -> (r: Option<PersistedSession>)
        ensures
            self.persists_as(r),
    {
        match self {
            AuthResult::Extension(h) => Some(
                PersistedSession {
                    public_key_hex: h.public_key.to_hex(),
                    method: PersistedMethod::Extension,
                    bunker_uri: None,
                    passkey_credential_id: None,
                },
            ),
            AuthResult::Bunker(s) => Some(
                PersistedSession {
                    public_key_hex: s.public_key().to_hex(),
                    method: PersistedMethod::Bunker,
                    bunker_uri: Some(text(s.bunker_uri().as_str())),
                    passkey_credential_id: None,
                },
            ),
            AuthResult::Passkey(s) => Some(
                PersistedSession {
                    public_key_hex: s.public_key().to_hex(),
                    method: PersistedMethod::Passkey,
                    bunker_uri: None,
                    passkey_credential_id: Some(base64url_encode(s.credential_id().as_slice())),
                },
            ),
            AuthResult::ReadOnly(h) => Some(
                PersistedSession {
                    public_key_hex: h.public_key.to_hex(),
                    method: PersistedMethod::ReadOnly,
                    bunker_uri: None,
                    passkey_credential_id: None,
                },
            ),
            AuthResult::Ncryptsec(_) => None,
            AuthResult::RawNsec(_) => None,
        }
    }
}

/// What is persisted of a session holds no key material: the public key as
/// lower-case hex, the method, and for a bunker its URI, for a passkey its
/// credential ID; a session whose key lives only in memory is not persisted.
pub proof fn law_persisted_session_holds_no_secret(a: AuthResult, o: Option<PersistedSession>)
    requires
        a.persists_as(o),
    ensures
        (a is Ncryptsec || a is RawNsec) <==> o is None,
        o matches Some(p) ==> {
            &&& p@.public_key_hex == hex_lower(a.key())
            &&& (p@.bunker_uri is Some <==> a is Bunker)
            &&& (p@.passkey_credential_id is Some <==> a is Passkey)
        },
{
}

/// Which login methods to show in the modal.
#[derive(Debug, Clone, Copy, PartialEq, Eq, Structural)]
#[non_exhaustive]
pub enum LoginMethod {
    /// NIP-07 browser extension.
    Extension,
    /// NIP-46 remote bunker.
    Bunker,
    /// WebAuthn passkey.
    Passkey,
    /// Read-only public key (no signing).
    ReadOnly,
    /// NIP-49 ncryptsec password-decrypted key.
    Ncryptsec,
    /// Raw nsec paste: opt-in only, not among the default methods.
    RawNsec,
}

/// The default login methods, in display order; raw nsec paste is opt-in
/// and not among them.
pub open spec fn all_login_methods() -> Seq<LoginMethod> {
    seq![
        LoginMethod::Extension,
        LoginMethod::Bunker,
        LoginMethod::Passkey,
        LoginMethod::ReadOnly,
        LoginMethod::Ncryptsec,
    ]
}

impl LoginMethod {
    /// The display name of a login method.
    pub open spec fn label(self) -> Seq<char> {
        match self {
            LoginMethod::Extension => "Browser Extension"@,
            LoginMethod::Bunker => "Nostr Connect"@,
            LoginMethod::Passkey => "Passkey"@,
            LoginMethod::ReadOnly => "Read-Only"@,
            LoginMethod::Ncryptsec => "Encrypted Key"@,
            LoginMethod::RawNsec => "Secret Key"@,
        }
    }

    /// Returns all default login methods in display order (raw nsec paste,
    /// being opt-in, is not among them).
    pub fn all() -> (v: Vec<LoginMethod>)
        ensures
            v@ == all_login_methods(),
    {
        let v = vec![
            LoginMethod::Extension,
            LoginMethod::Bunker,
            LoginMethod::Passkey,
            LoginMethod::ReadOnly,
            LoginMethod::Ncryptsec,
        ];
        assert(v@ =~= all_login_methods());
        v
    }

    /// Human-readable name for this login method.
    pub fn name(&self) -> (r: &'static str)
        ensures
            r@ == self.label(),
    {
        match self {
            LoginMethod::Extension => "Browser Extension",
            LoginMethod::Bunker => "Nostr Connect",
            LoginMethod::Passkey => "Passkey",
            LoginMethod::ReadOnly => "Read-Only",
            LoginMethod::Ncryptsec => "Encrypted Key",
            LoginMethod::RawNsec => "Secret Key",
        }
    }
}

/// Configuration of the login modal and the auth provider.
#[derive(Clone, Debug)]
pub struct NostrAuthConfig {
    /// Persist session to storage after login (default: `true`)
    pub persist_session: bool,
    /// Storage key (default: `"leptos_nostr_auth_session"`)
    pub storage_key: String,
    /// Close modal on backdrop click (default: `true`)
    pub close_on_backdrop_click: bool,
    /// Close modal on Escape key (default: `true`)
    pub close_on_escape: bool,
    /// Which login methods to expose (default: all)
    pub allowed_methods: Vec<LoginMethod>,
    /// NIP-46 connection timeout in seconds (default: `30`)
    pub bunker_timeout_secs: u32,
    /// WebAuthn relying party ID — must match the domain (default: the page's host name)
    pub rp_id: Option<String>,
    /// WebAuthn relying party display name (default: `"Nostr App"`)
    pub rp_name: String,
}

impl Default for NostrAuthConfig {
    fn default() -> (c: NostrAuthConfig)
        ensures
            c.persist_session,
            c.storage_key@ == "leptos_nostr_auth_session"@,
            c.close_on_backdrop_click,
            c.close_on_escape,
            c.allowed_methods@ == all_login_methods(),
            c.bunker_timeout_secs == 30,
            c.rp_id is None,
            c.rp_name@ == "Nostr App"@,
    {
        NostrAuthConfig {
            persist_session: true,
            storage_key: text("leptos_nostr_auth_session"),
            close_on_backdrop_click: true,
            close_on_escape: true,
            allowed_methods: LoginMethod::all(),
            bunker_timeout_secs: 30,
            rp_id: None,
            rp_name: text("Nostr App"),
        }
    }
}

} // verus!
