[package]
name = "fhevm_decryptions_db"
version = "0.1.0"
edition = "2021"
publish = false

[dependencies]
async_cell = "0.2"
base64 = "0.21"
bincode = "1.3"
hex = "0.4"
moka = { version = "0.12", features = ["sync"] }
rocket = { version = "0.5", features = ["json"] }
rocksdb = "0.21"
serde = { version = "1", features = ["derive"] }
