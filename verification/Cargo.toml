[package]
name = "node-librespot"
version = "0.1.0"
edition = "2021"
publish = false

[dependencies]
bytes = "=1.12.1"
librespot-audio = { version = "=0.8.0", default-features = false }
librespot-connect = { version = "=0.8.0", default-features = false }
librespot-core = { version = "=0.8.0", default-features = false, features = ["rustls-tls-webpki-roots"] }
librespot-discovery = { version = "=0.8.0", default-features = false, features = ["with-libmdns"] }
librespot-metadata = { version = "=0.8.0", default-features = false }
librespot-playback = { version = "=0.8.0", default-features = false }
# Credentials hold an enum of this crate.
librespot-protocol = "=0.8.0"
log = { version = "=0.4.35", features = ["std"] }
napi = { version = "=2.16.17", features = ["napi4", "tokio_rt"] }
napi-derive = "=2.16.13"
serde_json = "=1.0.154"
tokio = { version = "=1.54.1", features = ["rt-multi-thread", "sync", "time", "macros"] }
tokio-stream = "=0.1.19"
# Only pinned: librespot-core's build script does not compile against 9.1.
vergen = "=9.0.6"
