[package]
name = "daisy_markup"
version = "0.1.0"
edition = "2021"
publish = false

[dependencies]
dioxus = { version = "0.6", default-features = false, features = ["macro", "html", "signals", "hooks"] }

[dev-dependencies]
dioxus-ssr = { version = "0.6", default-features = false }
