[package]
name = "telemetry_core"
version = "0.1.0"
edition = "2021"
publish = false

[dependencies]
serde_json = "*"
chrono = "*"
serde = { version = "*", features = ["derive"] }
axum = { version = "*", features = ["ws"] }
tokio = { version = "*", features = ["rt-multi-thread", "macros", "net", "time"] }
futures-util = "*"
sysinfo = "*"
tower-http = { version = "*", features = ["cors"] }
nix = { version = "*", features = ["user"] }
