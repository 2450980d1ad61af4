[package]
name = "token_burner"
version = "0.1.0"
edition = "2021"
publish = false

[dependencies]
actix-files = "0.6"
actix-web = { version = "4", default-features = false, features = ["macros"] }
console_error_panic_hook = "0.1"
env_logger = "0.10"
js-sys = "0.3"
wasm-bindgen = "0.2"
wasm-bindgen-futures = "0.4"
wasm-logger = "0.2"
web-sys = { version = "0.3", features = ["HtmlInputElement", "Window"] }
yew = { version = "0.20", features = ["csr"] }
