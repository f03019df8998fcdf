[package]
name = "scroll_effects"
version = "0.1.0"
edition = "2021"
publish = false

[dependencies]
leptos = { version = "*", features = ["csr"] }
leptos-use = "*"
