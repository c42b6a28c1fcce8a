[package]
name = "spectator_cam"
version = "0.1.0"
edition = "2021"
publish = false

[dependencies]
rand = "*"
eldenring = "*"
fromsoftware-shared = "*"
pelite = "*"
retour = { version = "*", features = ["static-detour"] }
thiserror = "*"
ini = "*"
