[package]
name = "sql_acl"
version = "0.1.0"
edition = "2021"
publish = false

[dependencies]
sqlparser = "*"
serde = "*"
serde_derive = "*"
tokio = { version = "*", features = ["rt-multi-thread", "macros"] }
tokio-postgres = "*"
