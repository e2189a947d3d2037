[package]
name = "mousebridge"
version = "0.1.0"
edition = "2021"
publish = false

[dependencies]
anyhow = "=1.0.104"
device_query = "1"
dirs = "=5.0.1"
enigo = "0.1"
env_logger = { version = "=0.10.2", default-features = false }
hostname = "=0.4.2"
local_ipaddress = "=0.1.3"
log = "=0.4.34"
serde = { version = "=1.0.229", features = ["derive"] }
serde_json = "=1.0.154"
tokio = { version = "=1.54.1", features = ["sync", "time", "rt", "rt-multi-thread", "macros", "fs"] }
uuid = { version = "=1.29.0", features = ["v4"] }
