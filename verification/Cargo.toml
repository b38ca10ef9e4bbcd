[package]
name = "protonctllib"
version = "0.1.0"
edition = "2021"
publish = false

[dependencies]
sha2 = "0.10"
flate2 = "1"
xz2 = "0.1"
tar = "0.4"
anyhow = "1"
async-trait = "0.1"
clap = "4"
console = "0.15"
dirs = "5"
futures-util = "0.3"
indicatif = "0.17"
reqwest = { version = "0.12", default-features = false, features = ["json", "stream", "rustls-tls"] }
serde = { version = "1", features = ["derive"] }
termcolor = "1"
tokio = { version = "1", features = ["rt-multi-thread", "macros"] }
