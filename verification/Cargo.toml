[package]
name = "thumbstore"
version = "0.1.0"
edition = "2021"
publish = false

[dependencies]
image = { version = "=0.25.10", default-features = false, features = ["jpeg", "png"] }
serde_json = "=1.0.154"
uuid = { version = "=1.29.0", features = ["v4"] }
serde = { version = "=1.0.229", features = ["derive"] }
tokio = { version = "=1.54.1", features = ["full"] }
warp = "=0.3.7"
pretty_env_logger = "=0.5.0"
wasm-bindgen = "=0.2.129"
web-sys = { version = "=0.3.106", features = ["Window", "Document", "HtmlElement", "HtmlImageElement", "Node", "Element"] }
futures-util = "=0.3.34"
bytes = "=1.12.1"
