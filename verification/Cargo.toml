[package]
name = "vga_console"
version = "0.1.0"
edition = "2021"
publish = false

[dependencies]
spin = "=0.5.2"
volatile = "=0.2.7"
x86_64 = { version = "=0.14.13", default-features = false, features = ["instructions"] }
