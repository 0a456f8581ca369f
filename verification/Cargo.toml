[package]
name = "git-files"
version = "0.1.0"
edition = "2021"
publish = false

[dependencies]
anyhow = "1"
git2 = { version = "0.13", default-features = false }
structopt = "0.3"
