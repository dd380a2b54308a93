[package]
name = "idmrs"
version = "0.1.0"
edition = "2021"
publish = false

[dependencies]
rust-ini = "0.21"
anyhow = "1"
thiserror = "*"
clap = { version = "4", features = ["derive"] }
clap-color-help = "*"
clap-version-flag = "*"
colored = "*"
arboard = "3"
windows = { version = "0.58", features = ["Win32_Foundation", "Win32_Globalization", "Win32_System_Com", "Win32_System_Variant", "Win32_System_Ole", "Win32_UI_WindowsAndMessaging"] }
