[package]
name = "viewkit"
version = "0.1.0"
edition = "2021"
publish = false

[dependencies]
thiserror = "1"
wasm-bindgen = "0.2"
web-sys = { version = "0.3", features = ["Window", "Document", "Node", "Element", "HtmlElement", "HtmlAnchorElement", "HtmlInputElement", "CssStyleDeclaration"] }
