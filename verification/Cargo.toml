[package]
name = "wiskess"
version = "0.1.0"
edition = "2021"
publish = false

[dependencies]
glob = "*"
inquire = "*"
execute = "*"
fs_extra = "*"
chrono = "*"
serde = { version = "*", features = ["derive"] }
serde_yaml = "*"
rayon = "*"
tabled = "*"
