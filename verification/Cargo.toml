[package]
name = "crml"
version = "0.1.0"
edition = "2021"
publish = false

[dependencies]
parity-scale-codec = { version = "=1.3.7", features = ["derive"] }
sp-runtime = "=2.0.1"
sp-core = "=2.0.1"
frame-support = "=2.0.1"
pallet-session = "=2.0.1"
# Not used directly: version pins without which frame-support 2.0.1
# (private `syn::group` in later syn) and sp-core 2.0.1 (a second
# schnorrkel through later substrate-bip39) do not compile.
syn = "=1.0.58"
substrate-bip39 = "=0.4.2"
