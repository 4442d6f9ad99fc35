[package]
name = "feldspar"
version = "0.1.0"
edition = "2021"
publish = false

[dependencies]
dirs = "*"
genai = "*"
rustyline = "*"
steel-core = "*"
steel-derive = "*"
tokio = { version = "*", features = ["rt-multi-thread"] }
