[package]
name = "topic_monitor"
version = "0.1.0"
edition = "2021"
publish = false

[dependencies]
html-escape = "=0.2.15"
ftail = "=0.3.1"
futures = "=0.3.34"
log = "=0.4.34"
serde = { version = "=1.0.229", features = ["derive"] }
serde_json = "=1.0.151"
tokio = { version = "=1.53.2", features = ["macros", "rt-multi-thread", "sync", "time", "signal"] }
warp = { version = "=0.4.3", default-features = false, features = ["server"] }
zenoh = { version = "=1.10.1", default-features = false }
