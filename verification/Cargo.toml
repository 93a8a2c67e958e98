[package]
name = "display_switch_keycombo"
version = "0.1.0"
edition = "2021"
publish = false

[dependencies]
anyhow = "*"
config = "*"
dirs = "*"
log = "*"
rdev = "*"
serde = { version = "*", features = ["derive"] }
winapi = { version = "*", features = ["wincon"] }
