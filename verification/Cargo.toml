[package]
name = "chat_stream"
version = "0.1.0"
edition = "2021"
publish = false

[dependencies]
serde_json = "=1.0.154"
base64 = "=0.22.1"
serde = { version = "=1.0.229", features = ["derive"] }
reqwest = { version = "=0.12.28", default-features = false, features = ["json", "stream"] }
tokio = { version = "=1.54.1", features = ["rt-multi-thread", "sync", "fs", "macros", "io-util", "io-std"] }
futures-util = "=0.3.34"
toml = "=0.8.23"
chrono = { version = "=0.4.45", default-features = false, features = ["clock", "std", "serde"] }
uuid = { version = "=1.29.0", features = ["v4"] }
log = "=0.4.34"
env_logger = { version = "=0.11.11", default-features = false }
image = { version = "0.25", default-features = false, features = ["jpeg", "png"] }
eframe = { version = "0.29", default-features = false, features = ["glow", "x11", "default_fonts"] }
egui_commonmark = { version = "0.18", default-features = false, features = ["better_syntax_highlighting"] }
