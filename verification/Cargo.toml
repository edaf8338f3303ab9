[package]
name = "nvim_chaos"
version = "0.1.0"
edition = "2021"
publish = false

[dependencies]
nvim-oxi = { version = "=0.5.1", features = ["neovim-0-10", "libuv"] }
tokio = { version = "=1.53.2", features = ["rt", "sync", "macros"] }
twitch-irc = "=6.1.3"
serde = { version = "=1.0.229", features = ["derive"] }
serde_path_to_error = "=0.1.20"
thiserror = "=1.0.69"
