[package]
name = "meilisearch-sdk"
version = "0.24.3"
edition = "2021"
publish = false

[dependencies]
async-trait = "=0.1.92"
convert_case = "=0.6.0"
http = "=0.2.12"
log = "=0.4.34"
proc-macro2 = "=1.0.107"
quote = "=1.0.47"
serde = { version = "=1.0.229", features = ["derive"] }
serde_json = { version = "=1.0.154", features = ["preserve_order"] }
syn = { version = "=1.0.109", features = ["full", "extra-traits"] }
yaup = "=0.2.1"
