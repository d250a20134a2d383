[package]
name = "stockfish_actor"
version = "0.1.0"
edition = "2021"
publish = false

[dependencies]
shakmaty = { version = "=0.27.3", features = ["variant"] }
tokio = { version = "*", features = ["full"] }
