[package]
name = "envelope_ledger"
version = "0.1.0"
edition = "2021"
publish = false

[dependencies]
chrono = "0.4"
diesel = { version = "1.4", features = ["sqlite", "chrono"] }
dotenv = "0.15"
slint = { version = "1", default-features = false, features = ["std", "compat-1-2"] }
