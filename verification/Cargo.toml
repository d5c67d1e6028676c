[package]
name = "pie_chart"
version = "0.1.0"
edition = "2021"
publish = false

[dependencies]
rand = "*"
clap = { version = "*", features = ["derive"] }
serde = { version = "*", features = ["derive"] }
json5 = "*"
yansi = "*"
easy-error = "*"
