[package]
name = "whistle"
version = "0.1.0"
edition = "2021"
publish = false

[dependencies]
serde_json = "=1.0.151"
urlencoding = "=2.1.3"
log = "=0.4.34"
env_logger = "=0.11.11"
warp = { version = "=0.4.3", features = ["server"] }
tokio = { version = "=1.53.2", features = ["macros", "rt-multi-thread"] }
reqwest = { version = "=0.13.5", default-features = false, features = ["json"] }
