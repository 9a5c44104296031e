[package]
name = "renarrator"
version = "0.1.0"
edition = "2021"
publish = false

[dependencies]
rand = "=0.9.5"
zip = { version = "8", default-features = false, features = ["deflate"] }
serde = { version = "=1.0.229", features = ["derive"] }
serde_json = "=1.0.154"
thiserror = "=2.0.21"
ureq = "=3.5.1"
rodio = "=0.22.2"
windows = { version = "0.61", features = ["Win32_Media_Audio", "Win32_System_Com"] }
windows-sys = { version = "=0.61.2", features = ["Win32_Foundation", "Win32_System_Threading", "Win32_System_Registry", "Win32_UI_Shell", "Win32_UI_WindowsAndMessaging"] }
com-policy-config = "=0.6.0"
