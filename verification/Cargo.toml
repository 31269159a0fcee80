[package]
name = "mcp_arch_linux"
version = "0.1.0"
edition = "2021"
publish = false

[dependencies]
base64 = "0.13"
chrono = "0.4"
uuid = { version = "1", features = ["v4"] }
tokio = { version = "1", features = ["full"] }
libc = "0.2"
caps = "*"
nix = { version = "*", features = ["fs"] }
command-group = { version = "*", features = ["with-tokio"] }
dotenv = "*"
tracing = "0.1"
tracing-subscriber = { version = "0.3", features = ["env-filter"] }
