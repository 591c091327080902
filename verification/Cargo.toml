[package]
name = "crux_passkey"
version = "0.1.0"
edition = "2021"
publish = false

[dependencies]
anyhow = "=1.0.104"
cookie = "=0.18.2"
crux_core = "=0.7.6"
crux_http = "=0.5.1"
crux_macros = "=0.3.9"
log = "=0.4.35"
serde = { version = "=1.0.229", features = ["derive"] }
serde_json = "=1.0.154"
uuid = { version = "=1.29.0", features = ["v4", "serde"] }
webauthn-rs = { version = "=0.4.8", features = ["danger-allow-state-serialisation", "danger-credential-internals", "resident-key-support"] }
webauthn-rs-proto = { version = "=0.4.9", features = ["wasm"] }
spin-sdk = "=2.2.0"
include_dir = "=0.7.4"
leptos = { version = "=0.5.7", features = ["csr"] }
gloo-net = "=0.4.0"
web-sys = { version = "=0.3.107", features = ["Window", "Navigator", "Location", "CredentialsContainer", "CredentialCreationOptions", "CredentialRequestOptions", "Credential", "PublicKeyCredential", "SubmitEvent", "HtmlElement", "HtmlInputElement", "Element"] }
wasm-bindgen = "=0.2.130"
wasm-bindgen-futures = "=0.4.80"
console_log = "=1.1.0"
console_error_panic_hook = "=0.1.7"
