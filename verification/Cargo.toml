[package]
name = "ring0"
version = "0.1.0"
edition = "2021"
publish = false

[dependencies]
anyhow = "1"
const_format = "0.2"
dotenvy = "0.15"
innr = "*"
reqwest = { version = "0.12", default-features = false, features = ["json", "rustls-tls"] }
rmcp = { version = "*", features = ["client", "transport-child-process"] }
schemars = "1"
serde = { version = "1", features = ["derive"] }
serde_json = "1"
tavily = "*"
thiserror = "2"
time = { version = "0.3", features = ["formatting", "macros"] }
tokio = { version = "1", features = ["macros", "rt-multi-thread", "process"] }
zip = { version = "*", default-features = false, features = ["deflate"] }
