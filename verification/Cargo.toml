[package]
name = "runcat_core"
version = "0.1.0"
edition = "2021"
publish = false

[dependencies]
config = { version = "=0.15.27", default-features = false, features = ["toml"] }
dark-light = "=1.1.1"
image = { version = "=0.25.10", default-features = false, features = ["gif", "png"] }
once_cell = "=1.21.4"
parking_lot = "=0.12.5"
serde = { version = "=1.0.229", features = ["derive"] }
sysinfo = { version = "=0.37.2", default-features = false, features = ["system"] }
tokio = { version = "=1.53.2", features = ["rt-multi-thread", "macros", "time"] }
tray-icon = "=0.26.1"
winit = { version = "=0.30.13", default-features = false, features = ["x11", "rwh_06"] }
