[package]
name = "tsc_simulator"
version = "0.1.0"
edition = "2021"
publish = false

[dependencies]
anyhow = "1"
clap = { version = "3.2", features = ["derive"] }
clap-num = "1"
libc = "0.2"

[dev-dependencies]
quickcheck = "1"
