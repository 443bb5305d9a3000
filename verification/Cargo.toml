[package]
name = "passkit"
version = "0.1.0"
edition = "2021"
publish = false

[dependencies]
anyhow = "=1.0.104"
argon2 = "=0.6.0"
simple_crypt = "=0.2.3"
clap = { version = "=4.6.7", features = ["derive"] }
clippers = "=0.1.2"
rpassword = "=7.5.4"
