[package]
name = "scribe_client"
version = "0.1.0"
edition = "2021"
publish = false

[dependencies]
image = { version = "=0.25.10", default-features = false }
nix = { version = "=0.30.1", features = ["fs", "signal", "socket"] }
notify = "=8.2.1"
serde_json = "=1.0.154"
sysinfo = { version = "=0.40.1", default-features = false, features = ["system"] }
tokio = { version = "=1.54.1", features = ["io-util", "macros", "net", "rt", "rt-multi-thread", "sync", "time"] }
tracing = "=0.1.44"
vte = { version = "=0.15.0", features = ["ansi"] }
winit = { version = "=0.30.13", default-features = false, features = ["rwh_06", "x11"] }
