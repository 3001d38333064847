[package]
name = "deathroll"
version = "0.1.0"
edition = "2021"
publish = false

[dependencies]
rand = "0.8"
serde_json = "1"
serde = { version = "1", features = ["derive"] }
tokio = { version = "1", features = ["full"] }
futures = "0.3"
uuid = { version = "1", features = ["v4"] }
axum = { version = "0.6", features = ["ws"] }
axum-extra = { version = "0.4", features = ["spa"] }
tower-cookies = "0.9"
yew = { version = "0.20", features = ["csr"] }
yew-router = "0.17"
yew-agent = "0.2"
gloo-net = "0.2"
web-sys = { version = "0.3", features = ["Window", "Location", "Element", "HtmlInputElement", "MouseEvent"] }
nanoid = "0.4"
log = "0.4"
wasm-logger = "0.2"
