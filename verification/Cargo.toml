[package]
name = "cosmic_kvm"
version = "0.1.0"
edition = "2021"
publish = false

[dependencies]
anyhow = "1"
clap = { version = "4", features = ["derive"] }
evdev = "0.12"
hostname = "0.4"
libc = "0.2"
mdns-sd = "0.11"
nix = { version = "0.27", features = ["ioctl"] }
serde = { version = "1", features = ["derive"] }
serde_json = "1"
tokio = { version = "1", features = ["full"] }
tracing = "0.1"
tracing-subscriber = "0.3"
uuid = { version = "1", features = ["v4"] }
