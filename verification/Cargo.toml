[package]
name = "sauro"
version = "0.1.0"
edition = "2021"
publish = false

[dependencies]
syn = { version = "2", features = ["full"] }
proc-macro2 = { version = "1", features = ["span-locations"] }
quote = "1"
anyhow = "1"
clap = { version = "4", features = ["derive"] }

[dev-dependencies]
serde_json = "1"
