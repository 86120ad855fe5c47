[package]
name = "np"
version = "0.1.0"
edition = "2021"
publish = false

[dependencies]
serde = { version = "1", features = ["derive"] }
tokio = { version = "1", features = ["sync", "rt-multi-thread", "macros"] }
windows = { version = "0.48", features = ["Foundation", "Media", "Media_Control", "Storage", "Storage_Streams"] }
