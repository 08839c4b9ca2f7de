[package]
name = "selection_replace"
version = "0.1.0"
edition = "2021"
publish = false

[dependencies]
arboard = "3"
base64 = "0.21"
dirs = "5"
font-kit = "0.11"
image = { version = "0.25", default-features = false, features = ["png"] }
log = "0.4"
macos-accessibility-client = "0.0.1"
once_cell = "1"
serde = { version = "1", features = ["derive"] }
serde_json = "1"
windows = { version = "0.52", features = ["Win32_Foundation", "Win32_UI_Input_KeyboardAndMouse", "Win32_UI_WindowsAndMessaging"] }
zip = { version = "0.6", default-features = false, features = ["deflate"] }
