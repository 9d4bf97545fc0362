[package]
name = "warptest"
version = "0.1.0"
edition = "2021"
publish = false

[dependencies]
handlebars = "4"
reqwest = { version = "0.11", default-features = false, features = ["json"] }
serde = { version = "1", features = ["derive"] }
serde_json = "1"
tokio = { version = "1", features = ["macros", "rt-multi-thread", "sync"] }
uuid = { version = "1", features = ["v4"] }
warp = { version = "0.3", default-features = false }
