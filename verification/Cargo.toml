[package]
name = "zodiacal_web"
version = "0.1.0"
edition = "2021"
publish = false

[dependencies]
uuid = { version = "=1.29.0", features = ["v4", "serde"] }
chrono = { version = "=0.4.45", features = ["serde"] }
fitsio-pure = "=0.25.0"
serde = { version = "=1.0.229", features = ["derive"] }
serde_json = "=1.0.154"
anyhow = "=1.0.104"
axum = { version = "0.8", features = ["ws", "multipart"] }
tokio = { version = "=1.54.1", features = ["full"] }
tracing = "=0.1.44"
tracing-subscriber = { version = "=0.3.23", features = ["env-filter"] }
clap = { version = "=4.6.7", features = ["derive"] }
dotenvy = "=0.15.7"
tower-http = { version = "0.6", features = ["cors"] }
image = { version = "=0.25.10", default-features = false, features = ["png", "jpeg", "tiff"] }
ndarray = "=0.17.2"
ws-bridge = { version = "=0.2.1", features = ["server"] }
zodiacal = { version = "=0.5.1", default-features = false, features = ["image-processing"] }
starfield = { version = "=0.18.2", default-features = false }
diesel = { version = "2", features = ["postgres", "r2d2", "uuid", "chrono"] }
