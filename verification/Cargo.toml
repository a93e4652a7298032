[package]
name = "rust_game_boy_emulator"
version = "0.1.0"
edition = "2021"
publish = false

[dependencies]
env_logger = "*"
lazy_static = "*"
log = "*"
sdl2 = "*"
serde = { version = "*", features = ["derive"] }
serde_json = "*"
