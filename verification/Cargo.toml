[package]
name = "udl_enums"
version = "0.1.0"
edition = "2021"
publish = false

[dependencies]
anyhow = "1"
textwrap = { version = "0.16", default-features = false }
uniffi_meta = "0.26"
weedle2 = "5"
