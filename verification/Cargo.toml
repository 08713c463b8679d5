[package]
name = "bitter"
version = "0.1.0"
edition = "2021"
publish = false

[dependencies]
aes = "0.9"
argon2 = "0.5"
base64 = "0.22"
cbc = "0.2"
clap = { version = "4", features = ["derive"] }
daemonize = "0.5"
directories = "6"
futures-util = "0.3"
hex = "0.4"
libc = "0.2"
ratatui = "0.29"
reqwest = { version = "0.12", default-features = false, features = ["json", "rustls-tls"] }
ring = "0.17"
rmpv = "1"
rpassword = "7"
rsa = "0.9"
rusqlite = { version = "*", features = ["bundled"] }
serde = { version = "1", features = ["derive"] }
serde_json = "1"
sha1 = "0.10"
sha2 = "0.10"
ssh-encoding = "0.2"
ssh-key = { version = "0.6", features = ["ed25519", "rsa", "p256", "p384", "getrandom"] }
tokio = { version = "1", features = ["full"] }
tokio-tungstenite = { version = "*", features = ["rustls-tls-webpki-roots"] }
toml = "0.8"
tracing = "0.1"
tracing-subscriber = "0.3"
urlencoding = "2"
uuid = { version = "1", features = ["v4"] }
