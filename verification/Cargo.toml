[package]
name = "rs_fast_mcp"
version = "0.1.0"
edition = "2021"
publish = false

[dependencies]
strsim = "=0.11.1"
url = "=2.5.8"
base64 = "=0.23.1"
mime_guess = "=2.0.5"
uuid = { version = "=1.29.0", features = ["v4"] }
serde = { version = "=1.0.229", features = ["derive"] }
serde_json = "=1.0.154"
tokio = { version = "=1.54.1", features = ["full"] }
tokio-stream = { version = "=0.1.19", features = ["sync"] }
async-trait = "=0.1.92"
futures = "=0.3.34"
dashmap = "=6.2.1"
lru = "=0.19.0"
dotenvy = "=0.15.7"
tracing = "=0.1.44"
tracing-subscriber = { version = "=0.3.23", features = ["env-filter"] }
anyhow = "=1.0.104"
reqwest = { version = "=0.13.5", default-features = false, features = ["json"] }
jsonwebtoken = { version = "=11.1.0", features = ["rust_crypto"] }
jsonschema = { version = "=0.60.2", default-features = false }
actix-web = { version = "=4.18.1", default-features = false, features = ["macros"] }
actix-web-lab = "=0.29.5"
