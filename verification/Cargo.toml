[package]
name = "variant_server"
version = "0.1.0"
edition = "2021"
publish = false

[dependencies]
axum = "*"
axum-extra = { version = "*", features = ["cookie"] }
tokio = { version = "*", features = ["macros", "rt-multi-thread", "net"] }
tower-http = { version = "*", features = ["fs"] }
