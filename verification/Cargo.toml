[package]
name = "da_node"
version = "0.1.0"
edition = "2021"
publish = false

[dependencies]
num-bigint = "=0.4.8"
num-traits = "=0.2.19"
base64 = "=0.22.1"
ring = "=0.17.14"
sha2 = "=0.10.9"
uuid = { version = "=1.29.0", features = ["v4"] }
secrecy = { version = "=0.10.3", features = ["serde"] }
serde = { version = "=1.0.229", features = ["derive"] }
chrono = "=0.4.45"
tracing = "=0.1.44"
thiserror = "=2.0.21"
anyhow = "=1.0.104"
dotenvy = "=0.15.7"
clap = { version = "=4.6.7", features = ["derive", "env"] }
config = { version = "=0.15.27", default-features = false, features = ["toml"] }
tokio = { version = "=1.54.1", features = ["macros", "rt-multi-thread", "sync", "time", "net"] }
tonic = "=0.13.1"
prost = "=0.13.5"
axum = "=0.8.9"
sqlx = { version = "=0.8.6", default-features = false, features = ["sqlite", "runtime-tokio", "macros", "migrate", "uuid", "chrono"] }
juniper = { version = "=0.16.2", default-features = false, features = ["chrono", "uuid"] }
juniper_axum = "=0.2.0"
jsonwebtoken = "=9.3.1"
argon2 = "=0.5.3"
dataloader = { version = "=0.18.0", default-features = false, features = ["runtime-tokio"] }

[dev-dependencies]
fake = "=4.4.0"
rand = "=0.9.5"
