[package]
name = "pastpapers"
version = "0.1.0"
edition = "2021"
publish = false

[dependencies]
nipper = "*"
clap = { version = "*", features = ["derive"] }
dotenv = "*"
futures = "*"
futures-util = "*"
indicatif = "*"
reqwest = { version = "*", default-features = false, features = ["cookies", "stream"] }
tokio = { version = "*", features = ["macros", "rt-multi-thread"] }
