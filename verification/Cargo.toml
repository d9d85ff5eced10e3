[package]
name = "nostr_relay"
version = "0.1.0"
edition = "2021"
publish = false

[dependencies]
gloo-timers = { version = "=0.2.6", features = ["futures"] }
log = "=0.4.35"
nostr = { version = "=0.22.0", default-features = false, features = ["nip11"] }
nostr-sdk-net = "=0.22.0"
thiserror = "=1.0.69"
tokio = { version = "=1.54.1", features = ["sync"] }
wasm-bindgen-futures = "=0.4.80"
