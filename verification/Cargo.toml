[package]
name = "clipboard_manager"
version = "0.1.0"
edition = "2021"
publish = false

[dependencies]
directories = "=6.0.0"
futures = "*"
paste = "=1.0.15"
serde = { version = "=1.0.229", features = ["derive"] }
sqlite = "=0.37.4"
tokio = { version = "=1.54.1", features = ["rt", "rt-multi-thread", "time", "sync"] }
wl-clipboard-rs = "=0.9.4"
