[package]
name = "wlgreet"
version = "0.1.0"
edition = "2021"
publish = false

[dependencies]
chrono = "0.4"
getopts = "0.2"
greetd_ipc = { version = "*", features = ["sync-codec"] }
nix = "0.19"
os_pipe = "0.9"
serde = { version = "1", features = ["derive"] }
smithay-client-toolkit = { version = "0.12", default-features = false }
toml = "0.5"
wayland-client = "0.28"
wayland-protocols = { version = "0.28", features = ["client", "unstable_protocols"] }
