[package]
name = "mc_image_helper"
version = "0.1.0"
edition = "2021"
publish = false

[dependencies]
clap = { version = "4", features = ["derive"] }
futures-util = "0.3"
indicatif = "0.17"
modrinth-api = "*"
reqwest = { version = "*", features = ["stream"] }
sha2 = "0.10"
tokio = { version = "1", features = ["macros", "rt-multi-thread"] }
