[package]
name = "tangara"
version = "0.1.0"
edition = "2021"
publish = false

[dependencies]
xxhash-rust = { version = "0.8", features = ["xxh3", "const_xxh3"] }
syn = { version = "2", features = ["full", "extra-traits"] }
once_cell = "1"
libloading = "0.8"
serde = { version = "1", features = ["derive"] }
