[package]
name = "mdpage"
version = "0.1.0"
edition = "2021"
publish = false

[dependencies]
chrono = "=0.4.45"
comrak = "=0.56.0"
console_error_panic_hook = "=0.1.7"
reqwest = { version = "=0.13.5", default-features = false, features = ["blocking"] }
rphtml = "=0.5.9"
sauron = { version = "=0.70.0", default-features = false }
sauron-html-parser = "=0.70.0"
