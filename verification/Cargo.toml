[package]
name = "tessera_core"
version = "0.1.0"
edition = "2021"
publish = false

[dependencies]
hex = "0.4"
libc = "0.2"
nix = { version = "0.29", features = ["fs", "process", "resource", "signal", "user", "hostname"] }
openssl = "0.10"
openssl-sys = "0.9"
regex = "1"
secrecy = "0.10"
serde = { version = "1", features = ["derive"] }
serde_json = "1"
sha2 = "0.10"
thiserror = "1"
toml = "0.8"
tracing = "0.1"
uuid = { version = "1", features = ["v4", "v5"] }

[dev-dependencies]
tempfile = "3"
