[package]
name = "heimdall"
version = "0.1.0"
edition = "2021"
publish = false

[dependencies]
lazy_static = { version = "=1.5.1", features = ["spin_no_std"] }
pc-keyboard = "=0.8.0"
pic8259 = "=0.11.0"
spin = "=0.9.9"
volatile = "=0.2.7"
x86_64 = { version = "=0.15.5", default-features = false, features = ["instructions"] }
