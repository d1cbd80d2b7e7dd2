[package]
name = "cornerpin"
version = "0.1.0"
edition = "2021"
publish = false

[dependencies]
serde = { version = "1", features = ["derive"] }
serde_json = "1"
winapi = { version = "0.3", features = ["errhandlingapi", "handleapi", "libloaderapi", "minwindef", "shellapi", "synchapi", "windef", "winerror", "winnt", "winreg", "winuser"] }
