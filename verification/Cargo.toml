[package]
name = "kiro_executor"
version = "0.1.0"
edition = "2021"
publish = false

[dependencies]
shlex = "=1.3.0"
strip-ansi-escapes = "=0.2.1"
async-trait = "=0.1.92"
derivative = "=2.2.0"
dirs = "=5.0.1"
futures = "=0.3.34"
json-patch = "=4.2.0"
schemars = "=1.2.3"
serde = { version = "=1.0.229", features = ["derive"] }
tokio = { version = "=1.54.1", features = ["process", "io-util", "rt", "sync"] }
tracing = "=0.1.44"
ts-rs = "=12.0.1"
uuid = { version = "=1.29.0", features = ["v4"] }
which = "=8.0.6"
