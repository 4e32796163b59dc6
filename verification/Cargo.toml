[package]
name = "request_lifecycle"
version = "0.1.0"
edition = "2021"
publish = false

[dependencies]
hex = "*"
gloo-net = "*"
yew = { version = "*", features = ["csr"] }
yew-router = "*"
web-sys = { version = "*", features = ["HtmlInputElement", "Window"] }
