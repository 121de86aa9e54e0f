[package]
name = "chat_e2e"
version = "0.1.0"
edition = "2021"
publish = false

[dependencies]
url = "2"
anyhow = "1"
thirtyfour = "*"
tokio = { version = "1", features = ["macros", "rt", "rt-multi-thread", "sync", "time"] }
tokio-stream = "0.1"
warp = { version = "0.3", default-features = false, features = ["websocket"] }
futures-util = "0.3"
futures = "0.3"
log = "0.4"
pretty_env_logger = "*"
console_log = "*"
yew = "0.19"
reqwasm = "*"
wasm-bindgen-futures = "0.4"
web-sys = { version = "0.3", features = ["HtmlInputElement", "Window", "Location"] }
