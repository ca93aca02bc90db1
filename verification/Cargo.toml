[package]
name = "kampfplan"
version = "0.1.0"
edition = "2021"
publish = false

[dependencies]
chrono = "=0.4.45"
directories = "=6.0.0"
libc = "=0.2.190"
mail-builder = "=0.5.0"
mail-send = "=0.6.2"
tokio = { version = "=1.53.2", default-features = false, features = ["rt", "time"] }
