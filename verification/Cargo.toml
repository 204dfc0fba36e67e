[package]
name = "yubikey_provision"
version = "0.1.0"
edition = "2021"
publish = false

[dependencies]
clap = { version = "4", features = ["derive", "env"] }
dotenvy = "0.15"
log = "0.4"
prost = "0.13"
serde = { version = "1", features = ["derive"] }
thiserror = "2"
tokio = { version = "1", features = ["macros", "rt-multi-thread", "time"] }
toml = "0.8"
tonic = { version = "0.12", features = ["tls"] }
which = "7"
