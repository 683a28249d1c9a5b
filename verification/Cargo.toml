[package]
name = "framefetch"
version = "0.1.0"
edition = "2021"
publish = false

[dependencies]
once_cell = "*"
regex = "*"
tokio = { version = "*", features = ["macros", "rt-multi-thread"] }
ureq = "*"
