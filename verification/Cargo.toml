[package]
name = "atlas_local_js"
version = "0.1.0"
edition = "2021"
publish = false

[dependencies]
anyhow = "=1.0.104"
atlas-local = "=0.3.0"
bollard = "=0.19.4"
napi = { version = "=3.15.0", features = ["async", "error_anyhow"] }
napi-derive = "=3.6.13"
semver = "=1.0.28"
