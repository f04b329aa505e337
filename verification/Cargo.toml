[package]
name = "qhy_core"
version = "0.1.0"
edition = "2021"
publish = false

[dependencies]
base64 = "=0.22.1"
serde = { version = "=1.0.229", features = ["derive"] }
serde_json = "=1.0.154"
clap = { version = "=4.6.7", features = ["derive"] }
env_logger = "=0.11.11"
log = "=0.4.35"
rumqttc = "=0.25.1"
rfitsio = "=0.3.5"
astrotools = { version = "=0.12.0", default-features = false, features = ["wire"] }
