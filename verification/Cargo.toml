[package]
name = "spelldawn_rules"
version = "0.1.0"
edition = "2021"
publish = false

[dependencies]
serde = { version = "1", features = ["derive"] }
enum-kinds = "0.5"
once_cell = "1"
ulid = "1"
