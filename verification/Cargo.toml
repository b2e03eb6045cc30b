[package]
name = "any2nix"
version = "0.1.1"
edition = "2021"
publish = false

[dependencies]
serde = { version = "1", features = ["derive"] }
serde_json = "1"
serde_ini = "*"
toml = "*"
yaml_serde = "*"
ser_nix = "*"
mime_guess = "2"
clap = { version = "4", features = ["derive"] }
clap_complete = "4"
clap_mangen = "*"
axum = "*"
