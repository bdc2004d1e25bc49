[package]
name = "row_mapper"
version = "0.1.0"
edition = "2021"
publish = false

[dependencies]
rusqlite = "0.31"
serde = { version = "1", features = ["derive"] }
