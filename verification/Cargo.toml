[package]
name = "derive_hash_fast"
version = "0.1.0"
edition = "2021"
publish = false

[dependencies]
bytemuck = { version = "=1.25.2", features = ["derive"] }
zerocopy = { version = "=0.8.59", features = ["derive"] }
