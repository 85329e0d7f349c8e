[package]
name = "slog-scope-futures"
version = "0.1.0"
edition = "2021"
publish = false

[dependencies]
slog = "2"
slog-scope = "4"
