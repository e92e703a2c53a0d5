[package]
name = "bevy_i18n"
version = "0.1.0"
edition = "2021"
publish = false

[dependencies]
unic-langid = "0.9"
unic-langid-impl = "0.9"
