[package]
name = "metube"
version = "0.1.0"
edition = "2021"
publish = false

[dependencies]
base64 = "0.22"
bytes = "1"
clap = "4"
env_logger = "0.11"
futures-util = "0.3"
log = "0.4"
r2d2 = "0.8"
rand = "0.8"
rusqlite = { version = "0.31", features = ["bundled"] }
serde = { version = "1", features = ["derive"] }
sha2 = "0.10"
tera = { version = "1", default-features = false }
time = { version = "0.3", features = ["formatting"] }
tokio = { version = "1", features = ["rt-multi-thread"] }
toml = "0.8"
warp = { version = "0.3", default-features = false, features = ["multipart"] }
