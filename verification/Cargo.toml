[package]
name = "mlkem_glue"
version = "0.1.0"
edition = "2021"
publish = false

[dependencies]
base64 = "0.22"
hkdf = "0.12"
sha2 = "0.10"
ml-kem = "0.2"
rand_core = { version = "0.6", features = ["getrandom"] }
wasm-bindgen = "0.2"
js-sys = "0.3"
