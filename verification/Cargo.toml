[package]
name = "cashu_pos"
version = "0.1.0"
edition = "2021"
publish = false

[dependencies]
redb = "=4.3.0"
uuid = { version = "=1.27.0", features = ["v4"] }
cashu = "=0.18.1"
cdk = "=0.18.1"
anyhow = "=1.0.104"
axum = "=0.8.9"
tokio = { version = "=1.53.2", features = ["rt-multi-thread", "net", "signal", "macros"] }
tower-http = { version = "=0.7.1", features = ["cors"] }
tracing = "=0.1.44"
home = "=0.5.12"
bip39 = "=3.0.0"
cdk-redb = "=0.18.1"
config = { version = "=0.15.27", default-features = false, features = ["toml"] }
serde = { version = "=1.0.229", features = ["derive"] }
serde_json = "=1.0.151"
