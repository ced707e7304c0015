[package]
name = "raflow"
version = "0.1.0"
edition = "2021"
publish = false

[dependencies]
base64 = "=0.22.1"
hanconv = "=0.5.1"
serde = { version = "=1.0.229", features = ["derive"] }
serde_json = "=1.0.151"
tokio = { version = "=1.53.2", features = ["full"] }
tokio-tungstenite = "=0.30.0"
futures-util = "=0.3.34"
cpal = "=0.18.2"
rtrb = "=0.4.0"
rubato = "0.16"
nnnoiseless = { version = "=0.5.2", default-features = false }
enigo = "=0.6.1"
keyring = "=4.2.0"
rustls = { version = "=0.23.45", features = ["ring"] }
tracing = "=0.1.44"
tracing-subscriber = { version = "=0.3.23", features = ["env-filter"] }
