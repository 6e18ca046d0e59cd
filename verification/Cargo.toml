[package]
name = "venn_deduction"
version = "0.1.0"
edition = "2021"
publish = false

[dependencies]
coffee = { version = "=0.3.2", features = ["opengl"] }
rand = "=0.7.3"
