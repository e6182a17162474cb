[package]
name = "xsd_codegen"
version = "0.1.0"
edition = "2021"
publish = false

[dependencies]
exile = "=0.0.9"
cargo-readme = "=3.2.0"
tempfile = "=3.27.0"
uuid = { version = "=1.27.0", features = ["v4"] }
