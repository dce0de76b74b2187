# nostr_auth

Headless Nostr login for Leptos applications, with its logic verified by Verus.

The library (`src/`) holds everything that decides: which login methods exist
and how they are named, what is persisted of a session and how a persisted
session is brought back, the reactive auth state as a step function from state
and event to next state and action, the NIP-46 (remote signer) protocol
framing and reply handling, passkey key derivation from a WebAuthn PRF output,
read-only and raw-key parsing, and platform classification from browser hints.
Each public function carries a `requires`/`ensures` contract, and the
properties that span functions are stated as proof functions (`law_*`).

Calls into `nostr`, `base64` and `serde_json` that the logic needs
stand behind small trusted wrappers whose contracts say what those crates do.

`app/` is the browser runtime around it: the `NostrAuthProvider` component and
its context, `localStorage`, `window.nostr`, `decodeURIComponent`, WebAuthn and the relay
WebSockets. It performs the I/O the library asks for and hands back what came
of it.

Modules of the library:

| module | contents |
|---|---|
| `text` | character-level string helpers (trim, search, decimal text) |
| `keys` | public and secret keys, hex, bech32 and NIP-44/NIP-49 calls |
| `codec` | base64url and SHA-256 |
| `json` | the JSON texts and fields that NIP-46 handling reads |
| `error` | `NostrAuthError` and its messages |
| `platform` | OS family from Client Hints or the user-agent string |
| `signers` | extension, passkey, read-only and raw-key sessions |
| `bunker` | bunker URIs, NIP-46 requests, replies and sessions |
| `types` | `AuthResult`, persisted sessions, login methods, configuration |
| `storage` | restoring a persisted session |
| `session` | the provider's state machine |
