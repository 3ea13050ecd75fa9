[package]
name = "csv_to_xlsx"
version = "0.1.0"
edition = "2021"
publish = false

[dependencies]
csv = "*"
rust_xlsxwriter = "*"

[dev-dependencies]
calamine = "*"
