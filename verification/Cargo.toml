[package]
name = "quad_renderer"
version = "0.1.0"
edition = "2021"
publish = false

[dependencies]
image = "*"
wgpu = "*"
raw-window-handle = "*"
wasm-bindgen = "*"
js-sys = "*"
wasm-bindgen-futures = "*"
console_error_panic_hook = "*"
web-sys = { version = "*", features = ["Window", "Request", "RequestInit", "RequestMode", "Response", "HtmlCanvasElement", "Element", "Node", "EventTarget"] }
