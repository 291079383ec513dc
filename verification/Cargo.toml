[package]
name = "ceresdb"
version = "0.1.0"
edition = "2021"
publish = false

[dependencies]
async-trait = "0.1"
ceresdbproto = ">=1.0.0, <1.0.5"
futures = "0.3"
serde = { version = "1", features = ["derive"] }
serde_derive = "1"
snafu = "0.6"
tokio = { version = "1", features = ["fs"] }
