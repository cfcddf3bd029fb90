[package]
name = "fur"
version = "0.1.0"
edition = "2021"
publish = false

[dependencies]
color-eyre = "0.6"
rustyline = "*"
tokio = { version = "1", features = ["macros", "rt-multi-thread"] }

[dev-dependencies]
nom = "7"
