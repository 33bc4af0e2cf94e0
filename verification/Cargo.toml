[package]
name = "numake"
version = "0.1.0"
edition = "2021"
publish = false

[dependencies]
sha256 = { version = "=1.6.0", default-features = false }
pathdiff = "=0.2.3"
toml = "=0.8.23"
serde_json = "=1.0.154"
bitcode = "=0.6.9"
bzip2 = "=0.6.1"
anyhow = "1"
clap = { version = "4", features = ["derive"] }
console = "0.15"
dunce = "1"
mlua = { version = "0.10", features = ["luau"] }
reqwest = { version = "0.12", default-features = false, features = ["blocking", "rustls-tls"] }
tempfile = "3"
which = "6"
zip = { version = "2", default-features = false, features = ["deflate"] }
