[package]
name = "sacklite"
version = "0.1.0"
edition = "2021"
publish = false

[dependencies]
sha1 = "0.10"
openssl = "0.10"
axum = "0.7"
tokio = { version = "1", features = ["rt-multi-thread", "macros", "net"] }
