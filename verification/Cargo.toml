[package]
name = "mural_client"
version = "0.1.0"
edition = "2021"
publish = false

[dependencies]
jiff = "*"
reqwest = { version = "*", default-features = false }
tokio = { version = "*", features = ["rt", "macros", "time"] }
serde = { version = "*", features = ["derive"] }
toml = "*"
directories = "*"
xdg = "*"
tracing = "*"
tracing-subscriber = "*"
