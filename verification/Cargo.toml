[package]
name = "iphoneloadly-api"
version = "0.2.0"
edition = "2021"
publish = false

[dependencies]
aes-gcm = "=0.10.3"
async-trait = "0.1"
axum = { version = "=0.8.9", features = ["multipart"] }
base64 = "=0.22.1"
futures-util = "0.3"
idevice = { version = "=0.1.68", features = ["afc", "core_device", "installation_proxy", "pair", "remote_pairing", "rsd", "tcp", "tunnel_tcp_stack", "usbmuxd", "xpc"] }
if-addrs = "=0.15.0"
mdns-sd = "=0.20.3"
plist = "=1.10.3"
rand = "=0.9.5"
reqwest = { version = "=0.12.28", default-features = false, features = ["rustls-tls", "json", "stream"] }
rusqlite = { version = "=0.37.0", features = ["bundled"] }
rustls = "=0.23.46"
semver = "=1.0.28"
serde = { version = "1", features = ["derive"] }
serde_json = "=1.0.154"
sha2 = "=0.10.9"
thiserror = "2"
time = { version = "=0.3.55", features = ["formatting"] }
tokio = { version = "1", features = ["full"] }
tracing = "0.1"
tracing-subscriber = { version = "0.3", features = ["env-filter"] }
uuid = { version = "=1.29.0", features = ["v4", "v7", "serde"] }
zip = { version = "=8.6.0", default-features = false, features = ["deflate"] }
