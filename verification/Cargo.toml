[package]
name = "fishing_line"
version = "0.1.0"
edition = "2021"
publish = false

[dependencies]
chrono = "0.4"
pyo3 = "0.22"
reqwest = { version = "0.12", default-features = false, features = ["blocking", "json"] }
serde = { version = "1", features = ["derive"] }
struct_iterable = "*"
