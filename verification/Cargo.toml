[package]
name = "pallet_ocw"
version = "0.1.0"
edition = "2021"
publish = false

[dependencies]
frame-support = "=4.0.0"
frame-system = "=4.0.0"
log = "=0.4.35"
parity-scale-codec = { version = "=3.7.5", features = ["derive"] }
scale-info = { version = "=2.11.6", features = ["derive"] }
serde = { version = "=1.0.229", features = ["derive"] }
serde_json = "=1.0.154"
sp-arithmetic = "=7.0.0"
sp-core = "=8.0.0"
sp-io = "=8.0.0"
sp-runtime = "=8.0.0"
sp-std = "=6.0.0"
# Not called directly: sp-core 8 does not compile with the later 0.4 releases, which hand it the
# keys of another schnorrkel.
substrate-bip39 = "=0.4.4"
