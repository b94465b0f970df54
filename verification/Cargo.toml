[package]
name = "daneel_dashboard"
version = "0.1.0"
edition = "2021"
publish = false

[dependencies]
chrono = { version = "*", features = ["serde"] }
console_error_panic_hook = "*"
futures = "*"
gloo-net = "*"
gloo-timers = { version = "*", features = ["futures"] }
leptos = { version = "0.6", features = ["csr"] }
serde = { version = "*", features = ["derive"] }
serde_json = "*"
wasm-bindgen = "*"
web-sys = { version = "*", features = ["Window", "Location", "console"] }
