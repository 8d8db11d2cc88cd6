[package]
name = "socket_inventory"
version = "0.1.0"
edition = "2021"
publish = false

[dependencies]
netstat2 = "0.11"
serde = { version = "1", features = ["derive"] }
sysinfo = { version = "0.33", default-features = false, features = ["system"] }
