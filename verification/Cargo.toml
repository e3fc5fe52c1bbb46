[package]
name = "logi_mx"
version = "0.1.0"
edition = "2021"
publish = false

[dependencies]
hidapi = { version = "=2.6.7", default-features = false, features = ["linux-native-basic-udev"] }
evdev = "=0.13.2"
udev = "=0.9.3"
fslock = "=0.2.1"
libc = "=0.2.190"
tokio = { version = "=1.53.2", features = ["rt-multi-thread", "macros", "signal", "sync", "time"] }
serde = { version = "=1.0.229", features = ["derive"] }
toml = "=1.1.7"
