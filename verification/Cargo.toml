[package]
name = "ec_events"
version = "0.1.0"
edition = "2021"
publish = false

[dependencies]
sp1-curves = "*"
sp1-primitives = "*"
typenum = "*"
serde = { version = "1", features = ["derive"] }
deepsize2 = "*"
