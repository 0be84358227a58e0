[package]
name = "mml"
version = "0.1.0"
edition = "2021"
publish = false

[dependencies]
mail-parser = "=0.11.9"
mail-builder = "=0.4.4"
regex = "=1.13.1"
clap = { version = "=4.6.7", features = ["derive"] }
serde = { version = "=1.0.229", features = ["derive"] }
toml = "=0.8.23"
anyhow = "=1.0.104"
shellexpand = "=3.1.2"
tree_magic_mini = "3"
