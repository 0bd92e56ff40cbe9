[package]
name = "max170xx"
version = "0.1.0"
edition = "2021"
publish = false

[dependencies]
embedded-hal = "1"
embedded-hal-async = "1"

[dev-dependencies]
embedded-hal-mock = { version = "*", features = ["eh1"] }
