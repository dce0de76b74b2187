use vstd::prelude::*;

use crate::error::NostrAuthError;
use crate::keys::{npub, npub_key, npub_text, PublicKey};
use crate::signers::read_only_key;
use crate::text::{all_whitespace, lemma_trimmed_surrounded, trimmed};
use crate::storage::{law_restore_follows_persist, restores_as, RestoreStep};
use crate::types::{AuthResult, PersistedSession};

verus! {

/// The reactive auth state behind the provider: who is logged in, whether the
/// login modal is open, and whether a stored session is being restored.
pub struct AuthState {
    /// Current auth result; `None` when not logged in.
    pub auth: Option<AuthResult>,
    /// Whether the login modal is shown.
    pub show_modal: bool,
    /// Whether a persisted session is being restored.
    pub restoring: bool,
}

/// What happened to the provider.
pub enum AuthEvent {
    /// The provider mounted, with the session found in storage, if any.
    Mounted(Option<PersistedSession>),
    /// Restoring the stored session finished.
    RestoreFinished(Result<AuthResult, NostrAuthError>),
    /// A login in the modal succeeded.
    Authenticated(AuthResult),
    /// The login modal was asked for.
    ShowLogin,
    /// The login modal was closed.
    CloseModal,
    /// The user logged out.
    Logout,
}

/// What the provider must do next, outside the state.
pub enum AuthAction {
    /// Nothing.
    Nothing,
    /// Restore this stored session, and report back with `RestoreFinished`.
    StartRestore(PersistedSession),
    /// Write this session to storage.
    Store(PersistedSession),
    /// Remove the stored session.
    Forget,
}

impl AuthState {
    /// Nobody logged in, modal closed, nothing being restored.
    pub fn new() -> (s: AuthState)
        ensures
            s.auth is None,
            !s.show_modal,
            !s.restoring,
    {
        AuthState { auth: None, show_modal: false, restoring: false }
    }

    /// `true` when a user is logged in.
    pub fn is_authenticated(&self) -> (r: bool)
        ensures
            r == self.auth is Some,
    {
        self.auth.is_some()
    }

    /// The logged-in user's public key.
    pub fn public_key(&self) -> (r: Option<PublicKey>)
        ensures
            match self.auth {
                Some(a) => r matches Some(pk) && pk@ == a.key(),
                None => r is None,
            },
    {
        match &self.auth {
            Some(a) => Some(a.public_key()),
            None => None,
        }
    }

    /// The logged-in user's `npub`.
    pub fn npub(&self) -> (r: Option<String>)
        ensures
            match self.auth {
                Some(a) => r matches Some(t) && shows_key(t@, a.key()),
                None => r is None,
            },
    {
        match &self.auth {
            Some(a) => Some(display_npub(&a.public_key())),
            None => None,
        }
    }

    /// Whether `r` is the state after `event` and the action it calls for.
    /// `persist_session` is the configuration's flag: without it nothing is
    /// restored or stored.
    pub open spec fn steps_to(self, persist_session: bool, event: AuthEvent, r: (AuthState, AuthAction)) -> bool {
        match event {
            AuthEvent::Mounted(stored) => match stored {
                Some(s) if persist_session => r.0.auth == self.auth && r.0.show_modal == self.show_modal
                    && r.0.restoring && (r.1 matches AuthAction::StartRestore(x) && x == s),
                _ => r.0 == self && r.1 is Nothing,
            },
            AuthEvent::RestoreFinished(Ok(a)) => r.0.auth == Some(a) && r.0.show_modal == self.show_modal
                && !r.0.restoring && r.1 is Nothing,
            AuthEvent::RestoreFinished(Err(_)) => r.0.auth == self.auth && r.0.show_modal
                == self.show_modal && !r.0.restoring && r.1 is Forget,
            AuthEvent::Authenticated(a) => r.0.auth == Some(a) && !r.0.show_modal && r.0.restoring
                == self.restoring && (if persist_session && a.persisted() is Some {
                (r.1 matches AuthAction::Store(s) && a.persists_as(Some(s)))
            } else {
                r.1 is Nothing
            }),
            AuthEvent::ShowLogin => r.0.auth == self.auth && r.0.show_modal && r.0.restoring
                == self.restoring && r.1 is Nothing,
            AuthEvent::CloseModal => r.0.auth == self.auth && !r.0.show_modal && r.0.restoring
                == self.restoring && r.1 is Nothing,
            AuthEvent::Logout => r.0.auth is None && r.0.show_modal == self.show_modal && r.0.restoring
                == self.restoring && r.1 is Forget,
        }
    }

    /// The state after an event, and what to do about it. `persist_session` is
    /// the configuration's flag: without it nothing is restored or stored.
    pub fn step(self, persist_session: bool, event: AuthEvent) -> (r: (AuthState, AuthAction))
        ensures
            self.steps_to(persist_session, event, r),
    {
        let AuthState { auth, show_modal, restoring } = self;
        match event {
            AuthEvent::Mounted(stored) => match stored {
                Some(s) => {
                    if persist_session {
                        (AuthState { auth, show_modal, restoring: true }, AuthAction::StartRestore(s))
                    } else {
                        (AuthState { auth, show_modal, restoring }, AuthAction::Nothing)
                    }
                },
                None => (AuthState { auth, show_modal, restoring }, AuthAction::Nothing),
            },
            AuthEvent::RestoreFinished(Ok(a)) => (
                AuthState { auth: Some(a), show_modal, restoring: false },
                AuthAction::Nothing,
            ),
            AuthEvent::RestoreFinished(Err(_)) => (
                AuthState { auth, show_modal, restoring: false },
                AuthAction::Forget,
            ),
            AuthEvent::Authenticated(a) => {
                let action = if persist_session {
                    match a.to_persisted_session() {
                        Some(s) => AuthAction::Store(s),
                        None => AuthAction::Nothing,
                    }
                } else {
                    AuthAction::Nothing
                };
                (AuthState { auth: Some(a), show_modal: false, restoring }, action)
            },
            AuthEvent::ShowLogin => (
                AuthState { auth, show_modal: true, restoring },
                AuthAction::Nothing,
            ),
            AuthEvent::CloseModal => (
                AuthState { auth, show_modal: false, restoring },
                AuthAction::Nothing,
            ),
            AuthEvent::Logout => (AuthState { auth: None, show_modal, restoring }, AuthAction::Forget),
        }
    }
}

/// Whether `t` is the `npub` text shown for the key `k`: the text, which
/// decodes back to `k`, is 63 characters long and has no surrounding whitespace.
pub open spec fn shows_key(t: Seq<char>, k: Seq<u8>) -> bool {
    &&& t == npub_text(k)
    &&& npub_key(t) == Some(k)
    &&& t.len() == 63
    &&& trimmed(t) == t
}

/// The text shown for a public key: its bech32 `npub` (encoding a public key
/// cannot fail, so the hex fallback is never needed).
pub fn display_npub(pk: &PublicKey) -> (r: String)
    ensures
        shows_key(r@, pk@),
{
    npub(pk)
}

/// The `npub` shown for a logged-in user is accepted back by read-only login
/// and names the same key, also with whitespace around it.
pub proof fn law_read_only_accepts_shown_npub(t: Seq<char>, k: Seq<u8>, before: Seq<char>, after: Seq<char>)
    requires
        shows_key(t, k),
        all_whitespace(before),
        all_whitespace(after),
    ensures
        read_only_key(before + t + after) == Some(k),
{
    lemma_trimmed_surrounded(before, t, after);
}

/// A login that is stored is what restoring brings back: every session but an
/// in-memory key is stored, and restoring what was stored gives back a
/// read-only session with its key, confirms an extension session against its
/// key, re-connects a bunker session through its URI with the configured
/// timeout, and authenticates a
/// passkey session with its credential against its key.
pub proof fn law_stored_login_is_restored(
    s: AuthState,
    a: AuthResult,
    r: (AuthState, AuthAction),
    bunker_timeout_secs: u32,
    restored: Result<RestoreStep, NostrAuthError>,
)
    requires
        s.steps_to(true, AuthEvent::Authenticated(a), r),
        r.1 matches AuthAction::Store(p) ==> restores_as(p@, bunker_timeout_secs, restored),
    ensures
        (a is Ncryptsec || a is RawNsec) <==> r.1 is Nothing,
        r.1 is Store ==> match a {
            AuthResult::ReadOnly(h) => restored matches Ok(
                RestoreStep::Restored(AuthResult::ReadOnly(h2)),
            ) && h2.public_key@ == h.public_key@,
            AuthResult::Extension(h) => restored matches Ok(RestoreStep::ConfirmExtension { stored })
                && stored@ == h.public_key@,
            AuthResult::Bunker(b) => restored matches Ok(RestoreStep::ConnectBunker { uri, timeout_secs })
                && uri@ == b@.bunker_uri && timeout_secs == bunker_timeout_secs,
            AuthResult::Passkey(k) => restored matches Ok(
                RestoreStep::AuthenticatePasskey { credential_id, stored },
            ) && credential_id@ == k@.credential_id && stored@ == k@.public_key,
            AuthResult::Ncryptsec(_) => false,
            AuthResult::RawNsec(_) => false,
        },
{
    if let AuthAction::Store(p) = r.1 {
        law_restore_follows_persist(a, p, bunker_timeout_secs, restored);
    }
}

} // verus!
