[package]
name = "citations"
version = "0.1.0"
edition = "2021"
publish = false

[dependencies]
regex = "1"
nom-bibtex = "*"
sanitize-filename = "*"
url = "2"
gettext-rs = "*"
anyhow = "1"
doi2bib = "*"
reqwest = "*"
tokio = { version = "1", features = ["rt-multi-thread", "sync", "macros"] }
