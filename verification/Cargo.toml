[package]
name = "block_states"
version = "0.1.0"
edition = "2021"
publish = false

[dependencies]
ahash = "0.7"
bincode = "1"
bytemuck = { version = "1", features = ["derive"] }
flate2 = "1"
itertools = "0.10"
nalgebra-glm = "*"
once_cell = "1"
serde = { version = "1", features = ["derive"] }
smallvec = "1"
smartstring = { version = "1", features = ["serde"] }
