[package]
name = "lit_sink_nexus"
version = "0.1.0"
edition = "2021"
publish = false

[dependencies]
anyhow = "1"
clap = { version = "4", features = ["derive"] }
image = { version = "*", default-features = false, features = ["bmp", "ico", "png"] }
rand = "0.9"
resvg = { version = "*", default-features = false }
rust-i18n = "3"
tokio = { version = "1", features = ["macros", "rt-multi-thread"] }
toml = "*"
tracing = { version = "0.1", features = ["log"] }
tracing-appender = "0.2"
tracing-subscriber = { version = "0.3", features = ["env-filter"] }
uuid = { version = "1", features = ["v5"] }
windows = { version = "*", features = ["Devices_Enumeration", "Foundation", "Foundation_Collections", "Media_Audio", "System", "Win32_Foundation", "Win32_Globalization", "Win32_Graphics_Gdi", "Win32_System_LibraryLoader", "Win32_UI_HiDpi", "Win32_UI_Shell", "Win32_UI_WindowsAndMessaging"] }
