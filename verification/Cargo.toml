[package]
name = "routines"
version = "0.1.0"
edition = "2021"
publish = false

[dependencies]
base64ct = { version = "=1.8.3", features = ["alloc"] }
bs58 = "=0.5.1"
faster-hex = "=1.0.0"
tai64 = "=4.1.0"
p256 = { version = "=0.13.2", features = ["ecdsa", "pkcs8"] }
passkey = "=0.5.0"
coset = "=0.4.2"
serde = { version = "=1.0.229", features = ["derive"] }
serde_json = "=1.0.154"
random-detached = { version = "=1.4.0", features = ["chars"] }
rand_core = { version = "=0.6.4", features = ["getrandom"] }
jzon = "=0.12.5"
axum = "=0.8.9"
axum-extra = { version = "=0.12.6", features = ["cookie"] }
sqlx = { version = "=0.9.0", features = ["sqlite", "runtime-tokio"] }
tokio = { version = "=1.54.1", features = ["full"] }
tracing = "=0.1.44"
tower-http = { version = "=0.7.1", features = ["cors"] }
thiserror = "=2.0.21"
time = "=0.3.55"
toml = "=1.1.8"
mail-list = "=0.3.0-alpha"
reqwest = { version = "=0.13.5", default-features = false, features = ["json"] }
solana-instruction = "=4.0.0"
solana-sdk-ids = "=3.1.0"
solana-address = "=2.9.0"
solana-keypair = "=4.0.0"
solana-transaction = { version = "=6.0.0", features = ["wincode"] }
wincode = "=0.6.3"
pinocchio = "=0.12.0"
