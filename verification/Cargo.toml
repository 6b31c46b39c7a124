[package]
name = "venn_genn"
version = "0.1.0"
edition = "2021"
publish = false

[dependencies]
handlebars = "*"
rocket = "*"

[dev-dependencies]
serde_json = "*"
