[package]
name = "news_summary"
version = "0.1.0"
edition = "2021"
publish = false

[dependencies]
rss = "=2.1.2"
serde = { version = "*", features = ["derive"] }
serde_json = "*"
reqwest = { version = "*", default-features = false, features = ["json"] }
tokio = { version = "*", features = ["macros", "rt-multi-thread"] }
warp = { version = "*", default-features = false, features = ["server"] }
dotenv = "*"
