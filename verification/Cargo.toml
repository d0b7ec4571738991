[package]
name = "ragequit"
version = "0.1.0"
edition = "2021"
publish = false

[dependencies]
tokio = { version = "1", default-features = false, features = ["sync"] }
nix = { version = "0.27", default-features = false, features = ["signal"] }
pin-project = "1"
windows-sys = { version = "0.52", features = ["Win32_Foundation", "Win32_System_Console"] }

[dev-dependencies]
tokio = { version = "1", default-features = false, features = ["sync", "rt", "time"] }
