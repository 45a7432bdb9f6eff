[package]
name = "indi_touch_meter"
version = "0.1.0"
edition = "2021"
publish = false

[dependencies]
rumqttc = "=0.24.0"
rustls = "=0.22.4"
rustls-pemfile = "=2.2.0"
tokio = { version = "=1.54.1", features = ["rt-multi-thread", "macros", "sync", "time"] }
serde = { version = "=1.0.229", features = ["derive"] }
serde_json = "=1.0.154"
chrono = "=0.4.45"
reqwest = { version = "=0.12.28", default-features = false, features = ["json", "rustls-tls"] }

[dev-dependencies]
ring = "=0.17.14"
