[package]
name = "qotd_board"
version = "0.1.0"
edition = "2021"
publish = false

[dependencies]
console_error_panic_hook = "*"
futures = "*"
js-sys = "*"
log = "*"
wasm-bindgen = "*"
wasm-bindgen-futures = "*"
wasm-timer = "*"
web_logger = "*"
web-sys = { version = "*", features = ["Request", "RequestInit", "RequestMode", "Response", "Window"] }
yew = { version = "*", features = ["csr"] }
