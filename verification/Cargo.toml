[package]
name = "nostr_auth"
version = "0.1.0"
edition = "2021"
publish = false

[dependencies]
nostr = { version = "=0.44.8", features = ["std", "nip44", "nip49"] }
serde = { version = "=1.0.229", features = ["derive"] }
serde_json = "=1.0.154"
base64 = "=0.22.1"
thiserror = "=2.0.21"
js-sys = "=0.3.107"
wasm-bindgen = "=0.2.130"
wasm-bindgen-futures = "=0.4.80"
web-sys = { version = "=0.3.107", features = ["Window", "Navigator", "CredentialsContainer", "Crypto", "WebSocket", "MessageEvent", "ErrorEvent", "Event", "BinaryType", "console", "Storage"] }
gloo-storage = "=0.4.0"
send_wrapper = "=0.6.0"
leptos = "=0.8.23"
leptos-use = "=0.20.0"
codee = { version = "=0.3.5", features = ["json_serde"] }
