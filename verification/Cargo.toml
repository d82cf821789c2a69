[package]
name = "diesel_enum_derive"
version = "0.1.0"
edition = "2021"

[dependencies]
syn = { version = "2", default-features = false, features = ["derive", "parsing", "full"] }
