[package]
name = "commit_diff"
version = "0.1.0"
edition = "2021"
publish = false

[dependencies]
anyhow = "1"
git2 = { version = "*", default-features = false }

[dev-dependencies]
tempfile = "3"
