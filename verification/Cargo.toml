[package]
name = "kondis"
version = "0.1.0"
edition = "2021"
publish = false

[dependencies]
anyhow = "1"
async-trait = "0.1"
btleplug = "0.11"
clap = { version = "4", features = ["derive"] }
crossterm = "0.28"
ebur128 = "0.1"
futures = "0.3"
spectrum-analyzer = "1"
symphonia = "0.5"
tokio = { version = "1", features = ["macros", "rt-multi-thread", "signal", "sync", "time"] }
uuid = "1"
