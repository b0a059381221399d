[package]
name = "sysprobe"
version = "0.1.0"
edition = "2021"
publish = false

[dependencies]
ash = "=0.38.0"
cpuinfo-rs = "*"
hex = "=0.4.3"
libc = "=0.2.191"
num-format = "=0.4.4"
nusb = "=0.1.14"
os-release = "=0.1.0"
serde = { version = "=1.0.229", features = ["derive"] }
serde_json = "=1.0.154"
sysinfo = "=0.32.1"
thiserror = "=1.0.69"
