[package]
name = "rsfq"
version = "0.1.0"
edition = "2021"
publish = false

[dependencies]
md5 = "*"
tokio = { version = "*", features = ["macros", "rt-multi-thread", "process", "time", "fs"] }
reqwest = { version = "*", default-features = false }
futures = "*"
clap = { version = "*", features = ["derive"] }
log = "*"
simple_logger = "*"
walkdir = "*"
which = "*"
