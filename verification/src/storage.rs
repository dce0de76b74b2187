use vstd::prelude::*;

use crate::codec::{base64url_bytes, base64url_decode};
use crate::error::{base64_error_text, fails_with, key_error_text, text, AuthFailure, NostrAuthError};
use crate::keys::{decode_key_hex, is_key_hex, lemma_key_hex_roundtrip, public_key_from_hex, PublicKey};
use crate::signers::{Nip07Handle, PasskeySession, ReadOnlyHandle};
use crate::types::{AuthResult, PersistedMethod, PersistedSession, PersistedView};

verus! {

/// How a persisted session is brought back.
pub enum RestoreStep {
    /// Restored directly: a read-only session needs no re-authentication.
    Restored(AuthResult),
    /// Ask the extension for its key, which must be the stored one.
    ConfirmExtension { stored: PublicKey },
    /// Re-connect to the remote signer through the stored URI.
    ConnectBunker { uri: String, timeout_secs: u32 },
    /// Authenticate with the stored passkey, which must derive the stored key.
    AuthenticatePasskey { credential_id: Vec<u8>, stored: PublicKey },
}

/// Whether `r` is what restoring the persisted session `v` starts with, under
/// the configured bunker timeout: the stored key must be 64 hex digits; then
/// each method takes its own path.
pub open spec fn restores_as(
    v: PersistedView,
    bunker_timeout_secs: u32,
    r: Result<RestoreStep, NostrAuthError>,
) -> bool {
    if !is_key_hex(v.public_key_hex) {
        r matches Err(NostrAuthError::InvalidPublicKey(_))
    } else {
        let key = decode_key_hex(v.public_key_hex);
        match v.method {
            PersistedMethod::ReadOnly => r matches Ok(RestoreStep::Restored(AuthResult::ReadOnly(h)))
                && h.public_key@ == key,
            PersistedMethod::Extension => r matches Ok(RestoreStep::ConfirmExtension { stored })
                && stored@ == key,
            PersistedMethod::Bunker => match v.bunker_uri {
                None => fails_with(r, AuthFailure::InvalidBunkerUri("no URI stored"@)),
                Some(u) => r matches Ok(RestoreStep::ConnectBunker { uri, timeout_secs }) && uri@
                    == u && timeout_secs == bunker_timeout_secs,
            },
            PersistedMethod::Passkey => match v.passkey_credential_id {
                None => fails_with(r, AuthFailure::PasskeyFailed("no credential ID stored"@)),
                Some(c) => match base64url_bytes(c) {
                    None => r matches Err(NostrAuthError::PasskeyFailed(_)),
                    Some(b) => r matches Ok(RestoreStep::AuthenticatePasskey { credential_id, stored })
                        && credential_id@ == b && stored@ == key,
                },
            },
        }
    }
}

/// The first step of restoring a persisted session; a bunker session
/// re-connects with the configured timeout.
pub fn restore_plan(session: &PersistedSession, bunker_timeout_secs: u32) -> (r: Result<
    RestoreStep,
    NostrAuthError,
>)
    ensures
        restores_as(session@, bunker_timeout_secs, r),
{
    let stored = match public_key_from_hex(session.public_key_hex.as_str()) {
        Ok(pk) => pk,
        Err(e) => return Err(NostrAuthError::InvalidPublicKey(key_error_text(&e))),
    };
    match session.method {
        PersistedMethod::Extension => Ok(RestoreStep::ConfirmExtension { stored }),
        PersistedMethod::Bunker => match &session.bunker_uri {
            Some(u) => Ok(
                RestoreStep::ConnectBunker { uri: text(u.as_str()), timeout_secs: bunker_timeout_secs },
            ),
            None => Err(NostrAuthError::InvalidBunkerUri(text("no URI stored"))),
        },
        PersistedMethod::Passkey => {
            let cred_id_b64 = match &session.passkey_credential_id {
                Some(c) => c,
                None => return Err(NostrAuthError::PasskeyFailed(text("no credential ID stored"))),
            };
            match base64url_decode(cred_id_b64.as_str()) {
                Ok(credential_id) => Ok(RestoreStep::AuthenticatePasskey { credential_id, stored }),
                Err(e) => Err(NostrAuthError::PasskeyFailed(base64_error_text(&e))),
            }
        },
        PersistedMethod::ReadOnly => Ok(
            RestoreStep::Restored(AuthResult::ReadOnly(ReadOnlyHandle { public_key: stored })),
        ),
    }
}

/// Restoring an extension session: the extension must still hold the stored key.
pub fn finish_extension_restore(stored: &PublicKey, handle: Nip07Handle) -> (r: Result<
    AuthResult,
    NostrAuthError,
>)
    ensures
        handle.public_key@ == stored@ ==> (r matches Ok(AuthResult::Extension(h)) && h.public_key@
            == stored@),
        handle.public_key@ != stored@ ==> fails_with(
            r,
            AuthFailure::ExtensionRejected(
                "Extension returned a different public key than the stored session"@,
            ),
        ),
{
    if !handle.public_key.same_as(stored) {
        return Err(
            NostrAuthError::ExtensionRejected(
                text("Extension returned a different public key than the stored session"),
            ),
        );
    }
    Ok(AuthResult::Extension(handle))
}

/// Restoring a passkey session: the passkey must derive the stored key.
pub fn finish_passkey_restore(stored: &PublicKey, session: PasskeySession) -> (r: Result<
    AuthResult,
    NostrAuthError,
>)
    ensures
        session@.public_key == stored@ ==> (r matches Ok(AuthResult::Passkey(s)) && s@ == session@),
        session@.public_key != stored@ ==> fails_with(
            r,
            AuthFailure::PasskeyFailed(
                "Passkey derived a different public key than the stored session"@,
            ),
        ),
{
    if !session.public_key().same_as(stored) {
        return Err(
            NostrAuthError::PasskeyFailed(
                text("Passkey derived a different public key than the stored session"),
            ),
        );
    }
    Ok(AuthResult::Passkey(session))
}

/// Restoring what was persisted of a session leads back to that session: a
/// read-only session comes back with its key, an extension session is
/// confirmed against its key, a bunker session re-connects through its URI,
/// with the configured timeout, and a passkey session authenticates with its
/// credential against its key.
/// Sessions with an in-memory key are never persisted.
pub proof fn law_restore_follows_persist(
    a: AuthResult,
    p: PersistedSession,
    bunker_timeout_secs: u32,
    r: Result<RestoreStep, NostrAuthError>,
)
    requires
        a.persists_as(Some(p)),
        restores_as(p@, bunker_timeout_secs, r),
    ensures
        match a {
            AuthResult::ReadOnly(h) => r matches Ok(RestoreStep::Restored(AuthResult::ReadOnly(h2)))
                && h2.public_key@ == h.public_key@,
            AuthResult::Extension(h) => r matches Ok(RestoreStep::ConfirmExtension { stored })
                && stored@ == h.public_key@,
            AuthResult::Bunker(s) => r matches Ok(RestoreStep::ConnectBunker { uri, timeout_secs })
                && uri@ == s@.bunker_uri && timeout_secs == bunker_timeout_secs,
            AuthResult::Passkey(s) => r matches Ok(
                RestoreStep::AuthenticatePasskey { credential_id, stored },
            ) && credential_id@ == s@.credential_id && stored@ == s@.public_key,
            AuthResult::Ncryptsec(_) => false,
            AuthResult::RawNsec(_) => false,
        },
{
    match a {
        AuthResult::ReadOnly(h) => {
            h.public_key.lemma_len();
            lemma_key_hex_roundtrip(h.public_key@);
        },
        AuthResult::Extension(h) => {
            h.public_key.lemma_len();
            lemma_key_hex_roundtrip(h.public_key@);
        },
        AuthResult::Bunker(s) => {
            s.lemma_key_len();
            lemma_key_hex_roundtrip(s@.public_key);
        },
        AuthResult::Passkey(s) => {
            s.lemma_key_len();
            lemma_key_hex_roundtrip(s@.public_key);
        },
        AuthResult::Ncryptsec(_) => {},
        AuthResult::RawNsec(_) => {},
    }
}

} // verus!
