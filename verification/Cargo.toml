[package]
name = "ruuvi_telemetry"
version = "0.1.0"
edition = "2021"
publish = false

[dependencies]
bytes = "1"
serde = { version = "1", features = ["derive"] }
serde_json = "1"
lazy_static = "1.4"
prometheus = { version = "0.13", default-features = false }
tokio = { version = "1", features = ["rt-multi-thread", "macros", "time"] }
hyper = { version = "0.14", features = ["server", "http1", "tcp"] }
rumqttc = { version = "*", default-features = false }

[dev-dependencies]
regex = "1"
