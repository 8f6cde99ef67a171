[package]
name = "linux-cec"
version = "0.1.0"
edition = "2021"
publish = false

[dependencies]
anyhow = "=1.0.104"
async-trait = "=0.1.92"
config = { version = "=0.15.27", default-features = false, features = ["async", "toml"] }
input-linux = "=0.7.1"
nix = { version = "=0.30.1", features = ["fs", "hostname", "ioctl", "poll", "term"] }
serde = { version = "=1.0.229", features = ["derive"] }
tinyvec = "=1.13.3"
tokio = { version = "=1.54.1", features = ["fs", "macros", "net", "rt-multi-thread", "signal", "sync", "time"] }
tokio-stream = "=0.1.19"
tokio-util = "=0.7.20"
tracing = "=0.1.44"
tracing-subscriber = { version = "=0.3.23", features = ["env-filter"] }
udev = "0.9"
xdg = "=3.0.0"
zbus = { version = "=5.19.0", default-features = false, features = ["tokio"] }
