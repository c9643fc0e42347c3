[package]
name = "st_server"
version = "0.1.0"
edition = "2021"
publish = false

[dependencies]
crossbeam-channel = "0.5"
drm = "*"
ffmpeg-next = "7"
ffmpeg-sys-next = "7"
io-uring = "0.7"
libc = "0.2"
nix = { version = "0.29", features = ["ioctl"] }
rand = "0.8"
serde_json = "1"
sha2 = "0.10"
tokio = { version = "1", features = ["full"] }
zbus = "5"
