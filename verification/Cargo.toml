[package]
name = "rubicon"
version = "0.1.0"
edition = "2021"
publish = false

[dependencies]
colored = "*"
dotenv = "*"
netlify-rust = "*"
serde = { version = "*", features = ["derive"] }
structopt = "*"
tokio = { version = "*", features = ["macros", "rt-multi-thread"] }
