[package]
name = "calculator"
version = "0.1.0"
edition = "2021"
publish = false

[dependencies]
tokio = { version = "=1.53.2", features = ["macros", "rt-multi-thread", "sync"] }
tonic = "=0.14.6"
tonic-prost = "=0.14.6"
tonic-reflection = "=0.14.6"
tonic-web = "=0.14.6"
tower-http = { version = "=0.7.1", features = ["cors"] }
prost = "=0.14.4"
prost-types = "=0.14.4"
