//! Headless Nostr login: the session model, the login-method catalogue, the
//! NIP-46 bunker protocol framing, session persistence and restore decisions,
//! and platform classification, each with a machine-checked contract.

pub mod bunker;
pub mod codec;
pub mod error;
pub mod json;
pub mod keys;
pub mod text;
pub mod types;
pub mod platform;
pub mod session;
pub mod signers;
pub mod storage;

pub use bunker::BunkerSession;
pub use error::NostrAuthError;
pub use platform::{Os, Platform};
pub use signers::{Nip07Handle, PasskeySession, RawKeySession, ReadOnlyHandle};
pub use types::{AuthResult, LoginMethod, NostrAuthConfig, PersistedMethod, PersistedSession};
