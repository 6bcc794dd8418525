[package]
name = "cargo-i18n"
version = "0.1.0"
edition = "2021"
publish = false

[dependencies]
anyhow = "1"
clap = "=2.34.0"
gettext = "=0.4.0"
i18n-build = "=0.1.1"
i18n-config = "=0.1.2"
i18n-embed = { version = "=0.1.2", features = ["desktop-requester"] }
rust-embed = "=5.9.0"
tr = { version = "=0.1.11", default-features = false, features = ["gettext"] }
unic-langid = "=0.8.0"
