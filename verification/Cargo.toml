[package]
name = "no_hidden_extensions"
version = "0.1.0"
edition = "2021"
publish = false

[dependencies]
anyhow = "=1.0.104"
clap = { version = "=4.6.7", features = ["derive"] }
dark-light = "=1.1.1"
image = { version = "=0.24.9", default-features = false, features = ["png"] }
thiserror = "=1.0.69"
tracing = "=0.1.44"
tracing-subscriber = "=0.3.23"
tray-icon = "=0.5.2"
windows-sys = { version = "=0.48.0", features = ["Win32_Foundation", "Win32_Security", "Win32_System_Diagnostics_ToolHelp", "Win32_System_Registry", "Win32_System_Threading"] }
winreg = { version = "=0.50.0", features = ["transactions"] }
