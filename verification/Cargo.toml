[package]
name = "parrot_llama"
version = "0.1.0"
edition = "2021"
publish = false

[dependencies]
ollama-rs = "*"
schemars = "1"
serde = { version = "1", features = ["derive"] }
serde_json = "1"
tokio = { version = "1", features = ["macros", "rt-multi-thread"] }
