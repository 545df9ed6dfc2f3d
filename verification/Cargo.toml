[package]
name = "rustybar"
version = "0.1.0"
edition = "2021"
publish = false

[dependencies]
jiff = "*"
tokio = { version = "*", features = ["rt-multi-thread", "time", "sync", "io-std", "io-util", "macros", "process"] }
sysinfo = "*"
starship-battery = "*"
