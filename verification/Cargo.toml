[package]
name = "gossip_core"
version = "0.1.0"
edition = "2021"
publish = false

[dependencies]
nostr-types = "=0.4.0"
rhai = { version = "=1.27.0", features = ["sync"] }
parking_lot = "=0.13.0"
tokio = { version = "=1.54.1", features = ["rt", "sync"] }
tracing = "=0.1.44"
egui-winit = { version = "=0.37.0", default-features = false, features = ["x11"] }
