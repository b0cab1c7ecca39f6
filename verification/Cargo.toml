[package]
name = "xeddsa"
version = "0.1.0"
edition = "2021"
publish = false

[dependencies]
curve25519-dalek = "=4.1.3"
ed25519 = "=2.2.3"
ed25519-dalek = "=2.2.0"
sha2 = "=0.10.9"
getrandom = "=0.2.17"
x25519-dalek = { version = "=2.0.1", features = ["static_secrets"] }
zeroize = "=1.9.1"
wasm-bindgen = "=0.2.129"
console_error_panic_hook = "=0.1.7"
