[package]
name = "whois_dns"
version = "0.1.0"
edition = "2021"
publish = false

[dependencies]
anyhow = "1"
clap = { version = "4", features = ["derive"] }
colored = "2"
tokio = { version = "1", features = ["full"] }
trust-dns-resolver = "0.23"
