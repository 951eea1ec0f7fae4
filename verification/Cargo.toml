[package]
name = "regressions"
version = "0.1.0"
edition = "2021"
publish = false

[dependencies]
similar = "*"
rawloader = "*"
rayon = "*"
reqwest = { version = "*", default-features = false, features = ["stream"] }
tokio = { version = "*", features = ["macros", "rt-multi-thread"] }
futures-util = "*"
async-channel = "*"
indicatif = "*"
serde = { version = "*", features = ["derive"] }
