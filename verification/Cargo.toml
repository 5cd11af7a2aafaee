[package]
name = "tower_htmx"
version = "0.1.0"
edition = "2021"
publish = false

[dependencies]
lol_html = "1.2"
percent-encoding = "2"
form_urlencoded = "1"
http = "1"
bytes = "1"
http-body = "1"
http-body-util = "0.1"
pin-project-lite = "0.2"
tower = { version = "0.4", features = ["util"] }
tower-http = { version = "0.5", features = ["fs"] }
tokio = { version = "1", features = ["rt-multi-thread", "macros", "net"] }
axum = "0.7"
