[package]
name = "contract_workflow"
version = "0.1.0"
edition = "2021"
publish = false

[dependencies]
anyhow = "1"
serde = { version = "1", features = ["derive"] }
serde_json = "1"
prost = "*"
tokio = { version = "1", features = ["macros", "rt-multi-thread"] }
cosmwasm-std = "*"
