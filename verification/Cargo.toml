[package]
name = "labyrinth_core"
version = "0.1.0"
edition = "2021"
publish = false

[dependencies]
base64 = "0.13"
bson = "2"
chrono = "0.4"
log = "0.4"
mongodb = "2"
rand = "0.8"
serde = { version = "1", features = ["derive"] }
thiserror = "1"
url = "2"
warp = "0.3"
webauthn-rs = "0.3"
