[package]
name = "repo_host"
version = "0.1.0"
edition = "2021"
publish = false

[dependencies]
regex = "1"
pulldown-cmark = { version = "0.12", default-features = false, features = ["html"] }
git2 = "0.19"
tempfile = "3"
tokio = { version = "1", features = ["macros", "rt-multi-thread", "time"] }
tracing = "0.1"
tracing-subscriber = "0.3"
color-eyre = "0.6"
handlebars = "5"
poem = { version = "3", features = ["static-files"] }
poem-openapi = { version = "5", features = ["swagger-ui", "redoc"] }
reqwest = { version = "0.12", features = ["json"] }
serde = { version = "1", features = ["derive"] }
serde_json = "1"
