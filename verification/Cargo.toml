[package]
name = "mnemon"
version = "0.1.0"
edition = "2021"
publish = false

[dependencies]
chrono = { version = "0.4", features = ["serde"] }
dioxus = { version = "0.7", features = ["web"] }
gloo-timers = { version = "0.3", features = ["futures"] }
rand = "0.8"
reqwest = { version = "0.12", default-features = false, features = ["json"] }
rexie = "0.6"
serde = { version = "1", features = ["derive"] }
serde-wasm-bindgen = "0.6"
tracing = "0.1"
urlencoding = "2"
uuid = { version = "1", features = ["v4", "serde"] }
web-sys = { version = "0.3", features = ["Window", "Storage", "Navigator"] }
