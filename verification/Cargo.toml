[package]
name = "sdl2xinput"
version = "0.1.0"
edition = "2021"
publish = false

[dependencies]
anyhow = "1"
clap = { version = "4", features = ["derive"] }
libloading = "0.8"
sdl3 = "*"
serde = { version = "1", features = ["derive"] }
tokio = { version = "1", features = ["rt-multi-thread", "macros", "time"] }
toml = "*"
tracing = "0.1"
tracing-subscriber = "0.3"
tray-item = "*"
windows-sys = { version = "*", features = ["Win32_System_Console"] }
