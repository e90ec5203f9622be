[package]
name = "valkyrie_interpreter"
version = "0.1.0"
edition = "2021"
publish = false

[dependencies]
clap = { version = "=4.6.7", features = ["derive"] }
dashmap = "=6.2.1"
json5 = "=1.3.3"
jupyter = "=0.2.1"
nyar-error = "=0.1.17"
serde_json = "=1.0.154"
valkyrie-ast = "=0.1.12"
valkyrie-parser = "=0.2.5"
