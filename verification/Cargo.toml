[package]
name = "rift_drag"
version = "0.1.0"
edition = "2021"
publish = false

[dependencies]
arc-swap = "=1.9.3"
objc2-core-foundation = { version = "=0.3.2", default-features = false, features = ["std", "CFCGTypes"] }
objc2-core-graphics = { version = "=0.3.2", default-features = false, features = ["std", "CGEvent", "CGEventTypes", "CGEventSource", "CGRemoteOperation"] }
serde = { version = "=1.0.229", features = ["derive"] }
tokio = { version = "=1.54.1", features = ["sync", "macros", "rt"] }
tracing = "=0.1.44"
