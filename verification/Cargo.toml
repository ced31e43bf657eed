[package]
name = "codestyle"
version = "0.1.0"
edition = "2021"
publish = false

[dependencies]
gloo-storage = "*"
log = "*"
serde = "*"
serde_derive = "*"
wasm-bindgen = "*"
wasm-logger = "*"
web-sys = { version = "*", features = ["Document", "Element", "HtmlImageElement", "HtmlInputElement", "Window"] }
yew = { version = "*", features = ["csr"] }
