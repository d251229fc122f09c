[package]
name = "list_eval"
version = "0.1.0"
edition = "2021"
publish = false

[dependencies]
rayon = "=1.12.0"
polars-core = { version = "=0.27.2", features = ["dtype-categorical"] }
polars-plan = { version = "=0.27.2", features = ["dtype-categorical"] }
