[package]
name = "wedder"
version = "0.1.0"
edition = "2021"
publish = false

[dependencies]
chrono = "*"
serde = { version = "*", features = ["derive"] }
serde_json = "*"
reqwest = { version = "*", default-features = false, features = ["blocking", "json"] }
toml = "*"
directories = "*"
log = "*"
log4rs = "*"
structopt = "*"
