[package]
name = "ascii_artinator_web"
version = "0.1.0"
edition = "2021"
publish = false

[dependencies]
yew = { version = "*", features = ["csr"] }
gloo-net = { version = "*", default-features = false, features = ["http"] }
web-sys = { version = "*", features = ["HtmlInputElement"] }
