[package]
name = "mdx_gen"
version = "0.1.0"
edition = "2021"
publish = false

[dependencies]
anyhow = "=1.0.104"
comrak = { version = "=0.44.0", default-features = false }
html-escape = "=0.2.15"
log = "=0.4.34"
syntect = { version = "=5.3.0", default-features = false, features = ["default-fancy"] }
thiserror = "=1.0.69"

[dev-dependencies]
regex = "=1.13.1"
