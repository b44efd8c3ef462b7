[package]
name = "canvas_trail"
version = "0.1.0"
edition = "2021"
publish = false

[dependencies]
bytemuck = { version = "1", features = ["derive"] }
console_error_panic_hook = "0.1"
console_log = "*"
log = "0.4"
raw-window-handle = "0.5"
tokio = { version = "1", features = ["sync", "macros", "rt"] }
wasm-bindgen = "0.2"
web-sys = { version = "0.3", features = ["Window", "Document", "Element", "HtmlCanvasElement", "MouseEvent", "DomRect", "EventTarget"] }
wgpu = "0.15"
